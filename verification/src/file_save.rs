//! The file sink: how the destination is opened.

use vstd::prelude::*;
use std::path::PathBuf;
use crate::log_processor_options::LogProcessorOptions;

verus! {

/// Saves the records to one file, as a single JSON array.
#[derive(Debug, PartialEq)]
pub struct FileSaveStrategy {
    pub path: PathBuf,
    pub truncate_on_save: bool,
}

/// How a file is opened for writing.
#[derive(Clone, Copy, Debug, PartialEq, Eq, Structural)]
pub struct WriteMode {
    /// Create the file where there is none.
    pub create: bool,
    /// Drop what the file holds before the first byte is written.
    pub truncate: bool,
}

impl FileSaveStrategy {
    /// The sink for the file at `path`.
    pub fn create_from_options(path: PathBuf, option: LogProcessorOptions) -> (made: Result<
        Self,
        String,
    >)
        ensures
            made == Ok::<Self, String>(
                FileSaveStrategy { path, truncate_on_save: option.truncate_on_save },
            ),
    {
        Ok(FileSaveStrategy { path, truncate_on_save: option.truncate_on_save })
    }

    /// How the destination is opened: it is created where it is missing, and
    /// what it held is dropped, whatever `truncate_on_save` says, so that the
    /// file holds the saved records and nothing else.
    pub fn write_mode(&self) -> (mode: WriteMode)
        ensures
            mode == (WriteMode { create: true, truncate: true }),
    {
        WriteMode { create: true, truncate: true }
    }
}

} // verus!
