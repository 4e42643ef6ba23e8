[package]
name = "sidozdev"
version = "1.0.0"
edition = "2021"
publish = false

[dependencies]
md-5 = "0.10"
sha1 = "0.10"
sha2 = "0.10"
rand = "0.8"
chrono = "0.4"
serde = { version = "1", features = ["derive"] }
serde_json = "1"
dirs = "5"
tokio = { version = "1", features = ["rt-multi-thread", "time", "sync"] }
anyhow = "1"
tracing = "0.1"
tracing-subscriber = { version = "0.3", features = ["env-filter"] }
winapi = { version = "0.3", features = ["fileapi", "handleapi", "winioctl", "winnt", "minwindef", "setupapi", "cfgmgr32", "ioapiset", "winbase", "errhandlingapi", "sysinfoapi", "securitybaseapi", "guiddef", "ntdef"] }
