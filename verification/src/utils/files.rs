//! Descriptions of chunked file reads and writes: which file and through
//! how large a buffer. The reading and writing are left to the caller.

use vstd::prelude::*;

verus! {

/// Async file reader for large files
pub struct AsyncFileReader {
    pub file_path: String,
    pub buffer_size: usize,
}

/// Async file writer for large files
pub struct AsyncFileWriter {
    pub file_path: String,
    pub buffer_size: usize,
}

impl AsyncFileReader {
    /// A reader of `path` through a buffer of `buffer_size` bytes.
    pub fn new(path: String, buffer_size: usize) -> (r: Self)
        ensures
            r.file_path@ == path@,
            r.buffer_size == buffer_size,
    {
        AsyncFileReader { file_path: path, buffer_size }
    }
}

impl AsyncFileWriter {
    /// A writer of `path` through a buffer of `buffer_size` bytes.
    pub fn new(path: String, buffer_size: usize) -> (w: Self)
        ensures
            w.file_path@ == path@,
            w.buffer_size == buffer_size,
    {
        AsyncFileWriter { file_path: path, buffer_size }
    }
}

} // verus!
