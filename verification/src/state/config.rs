//! Persistent application settings and where they are stored. Reading and
//! writing the settings file is left to the caller.

use vstd::prelude::*;
use vstd::string::StringExecFns;
use crate::state::app_state::{BootMode, FileSystem, HashAlgorithm, Language, PartitionScheme, Theme};

verus! {

/// Persistent application settings
#[derive(Debug)]
pub struct AppSettings {
    pub theme: Theme,
    pub language: Language,
    pub default_boot_mode: BootMode,
    pub default_partition_scheme: PartitionScheme,
    pub default_file_system: FileSystem,
    pub default_hash_algorithm: HashAlgorithm,
    pub auto_check_updates: bool,
    pub last_iso_directory: Option<String>,
    pub show_advanced_options: bool,
    pub log_level: String,
}

/// The settings used when none are stored.
pub open spec fn is_default_settings(s: AppSettings) -> bool {
    &&& s.theme == Theme::System
    &&& s.language == Language::English
    &&& s.default_boot_mode == BootMode::Uefi
    &&& s.default_partition_scheme == PartitionScheme::Gpt
    &&& s.default_file_system == FileSystem::Fat32
    &&& s.default_hash_algorithm == HashAlgorithm::Sha256
    &&& s.auto_check_updates
    &&& s.last_iso_directory is None
    &&& !s.show_advanced_options
    &&& s.log_level@ == "info"@
}

impl Default for AppSettings {
    fn default() -> (s: Self)
        ensures
            is_default_settings(s),
    {
        Self {
            theme: Theme::System,
            language: Language::English,
            default_boot_mode: BootMode::Uefi,
            default_partition_scheme: PartitionScheme::Gpt,
            default_file_system: FileSystem::Fat32,
            default_hash_algorithm: HashAlgorithm::Sha256,
            auto_check_updates: true,
            last_iso_directory: None,
            show_advanced_options: false,
            log_level: String::from_str("info"),
        }
    }
}

/// A plain path component: not empty, not `.` or `..`, with no separator
/// and no drive colon, so joining it appends it rather than replacing the
/// path.
pub open spec fn plain_component(name: Seq<char>) -> bool {
    &&& name.len() > 0
    &&& name != "."@
    &&& name != ".."@
    &&& forall|i: int| 0 <= i < name.len() ==> #[trigger] name[i] != '/' && name[i] != '\\' && name[i] != ':'
}

/// Whether a path starts with the Windows verbatim prefix `\\?\`. Joining
/// onto such a path rebuilds it without `.` and `..` components.
pub open spec fn verbatim_path(base: Seq<char>) -> bool {
    base.len() >= 4 && base.subrange(0, 4) == seq!['\\', '\\', '?', '\\']
}

/// A bare drive such as `C:`: a letter and a colon, nothing more.
pub open spec fn bare_drive(base: Seq<char>) -> bool {
    &&& base.len() == 2
    &&& base[1] == ':'
    &&& (('a' <= base[0] && base[0] <= 'z') || ('A' <= base[0] && base[0] <= 'Z'))
}

/// `p` is `base` joined with the plain component `name`, as
/// `PathBuf::push` does it. The separator added is the platform's (`\` on
/// Windows, `/` elsewhere), so both are allowed where one is added:
/// - an empty base gives the name alone;
/// - after a trailing `/` (a separator everywhere) nothing is added;
/// - after a trailing `\` or a bare drive nothing is added on Windows and
///   `/` elsewhere;
/// - after any other last character one separator is added;
/// - a base with the verbatim prefix is rebuilt from its components on
///   Windows: the result keeps the prefix `\\?\`, ends in the name, and
///   holds at least the prefix and the name.
pub open spec fn join_shape(base: Seq<char>, name: Seq<char>, p: Seq<char>) -> bool {
    if verbatim_path(base) {
        &&& verbatim_path(p)
        &&& name.is_suffix_of(p)
        &&& p.len() >= name.len() + 4
    } else if base.len() == 0 {
        p == name
    } else if base.last() == '/' {
        p == base + name
    } else if base.last() == '\\' || bare_drive(base) {
        p == base + name || p == base + seq!['/'] + name
    } else {
        p == base + seq!['/'] + name || p == base + seq!['\\'] + name
    }
}

/// `std::path::Path::join` with a plain component, as text: `PathBuf::push`
/// appends the component, adding the platform's separator unless the base
/// is empty, ends in a separator or is a bare drive (Windows); on Windows a
/// base with a verbatim prefix is rebuilt from its components (dropping
/// `.` and `..`), so of such a base only the kept prefix and the final
/// component are stated. The conversion back to text loses nothing, since
/// both parts are text.
#[verifier::external_body]
fn path_join(base: &str, name: &str) -> (p: String)
    requires
        plain_component(name@),
    ensures
        join_shape(base@, name@, p@),
{
    std::path::Path::new(base).join(name).to_string_lossy().into_owned()
}

/// `dirs::config_dir()`: the user's configuration directory, as text. It
/// depends on the platform and the environment (`$XDG_CONFIG_HOME` when it
/// is absolute, else `$HOME/.config`, on Linux; the roaming application
/// data folder on Windows), so only this is promised: a directory found is
/// not empty. On Linux and macOS the `dirs` source shows it (an absolute
/// path, or a non-empty home with a component joined on); on Windows it is
/// the folder path the system returns.
#[verifier::external_body]
fn platform_config_dir() -> (d: Option<String>)
    ensures
        d matches Some(dir) ==> dir@.len() > 0,
{
    dirs::config_dir().map(|p| p.to_string_lossy().into_owned())
}

/// The configuration directory found, or the current directory.
pub open spec fn config_base(found: Option<Seq<char>>) -> Seq<char> {
    match found {
        Some(d) => d,
        None => "."@,
    }
}

/// `p` is the settings file below the directory `dir`, which is the
/// settings directory below `base`.
pub open spec fn settings_file_path(base: Seq<char>, dir: Seq<char>, p: Seq<char>) -> bool {
    &&& join_shape(base, "sidozdev"@, dir)
    &&& join_shape(dir, "config.json"@, p)
}

/// A configuration directory as the platform reports it: none, or a
/// non-empty text.
pub open spec fn found_dir(found: Option<Seq<char>>) -> bool {
    found matches Some(d) ==> d.len() > 0
}

/// The text of an optional text.
pub open spec fn opt_view(o: Option<String>) -> Option<Seq<char>> {
    match o {
        Some(s) => Some(s@),
        None => None,
    }
}

impl AppSettings {
    /// The settings directory below a configuration directory that was
    /// looked up (`None` when the platform has none).
    pub fn config_dir_from(found: Option<String>) -> (p: String)
        ensures
            join_shape(config_base(opt_view(found)), "sidozdev"@, p@),
    {
        proof {
            reveal_strlit("sidozdev");
            reveal_strlit(".");
            reveal_strlit("..");
            assert("sidozdev"@ != "."@ && "sidozdev"@ != ".."@) by {
                assert("sidozdev"@.len() != "."@.len() && "sidozdev"@.len() != ".."@.len());
            }
        }
        match found {
            Some(d) => path_join(d.as_str(), "sidozdev"),
            None => path_join(".", "sidozdev"),
        }
    }

    /// The settings file below a configuration directory that was looked up.
    pub fn config_file_from(found: Option<String>) -> (p: String)
        ensures
            exists|dir: Seq<char>| #[trigger] settings_file_path(config_base(opt_view(found)), dir, p@),
    {
        let dir = Self::config_dir_from(found);
        proof {
            reveal_strlit("config.json");
            reveal_strlit(".");
            reveal_strlit("..");
            assert("config.json"@ != "."@ && "config.json"@ != ".."@) by {
                assert("config.json"@.len() != "."@.len() && "config.json"@.len() != ".."@.len());
            }
        }
        let p = path_join(dir.as_str(), "config.json");
        let ghost f = opt_view(found);
        assert(settings_file_path(config_base(f), dir@, p@));
        p
    }

    /// The settings directory: `sidozdev` below the user's configuration
    /// directory, or below the current directory when there is none.
    pub fn config_dir() -> (p: String)
        ensures
            exists|found: Option<Seq<char>>| found_dir(found) && #[trigger] join_shape(config_base(found), "sidozdev"@, p@),
    {
        let found = platform_config_dir();
        let p = Self::config_dir_from(found);
        assert(found_dir(opt_view(found)));
        assert(join_shape(config_base(opt_view(found)), "sidozdev"@, p@));
        p
    }

    /// The settings file: `config.json` in the settings directory.
    pub fn config_file() -> (p: String)
        ensures
            exists|found: Option<Seq<char>>, dir: Seq<char>|
                found_dir(found) && #[trigger] settings_file_path(config_base(found), dir, p@),
    {
        let found = platform_config_dir();
        let p = Self::config_file_from(found);
        let ghost f = opt_view(found);
        assert(found_dir(f));
        assert(exists|dir: Seq<char>| #[trigger] settings_file_path(config_base(f), dir, p@));
        p
    }

    /// The settings to use after trying to read the stored ones: those read,
    /// or the defaults when the file was missing, unreadable or malformed.
    pub fn loaded_or_default(stored: Option<AppSettings>) -> (s: AppSettings)
        ensures
            match stored {
                Some(t) => s == t,
                None => is_default_settings(s),
            },
    {
        match stored {
            Some(t) => t,
            None => AppSettings::default(),
        }
    }
}

} // verus!
