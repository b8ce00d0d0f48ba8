//! The file source: the records of a file, put through the local pipeline.

use vstd::prelude::*;
use std::path::PathBuf;
use crate::log_entry::{LogEntry, LogLevel};
use crate::log_processor_options::LogProcessorOptions;
use crate::pipeline::{local_pipeline, pipeline, views};

verus! {

/// Reads the records of one file and puts them through the local pipeline.
#[derive(Debug, PartialEq)]
pub struct FileGetStrategy {
    pub path: PathBuf,
    pub reverse: bool,
    pub limit: i64,
    pub level_filter: Option<LogLevel>,
    pub date_filter_string: Option<String>,
    pub date_filter: Option<(i64, i64)>,
}

impl FileGetStrategy {
    /// The source for the file at `path`, with the filters, the order and
    /// the limit of the options.
    pub fn create(path: PathBuf, option: LogProcessorOptions) -> (made: Result<Self, String>)
        ensures
            made == Ok::<Self, String>(
                FileGetStrategy {
                    path,
                    reverse: option.reverse,
                    limit: option.limit,
                    level_filter: option.level_filter,
                    date_filter_string: option.date_filter_string,
                    date_filter: option.date_filter,
                },
            ),
    {
        Ok(
            FileGetStrategy {
                path,
                reverse: option.reverse,
                limit: option.limit,
                date_filter: option.date_filter,
                date_filter_string: option.date_filter_string,
                level_filter: option.level_filter,
            },
        )
    }

    /// The records of the run, given the records that the file holds: what
    /// the local pipeline makes of them.
    pub fn get(&self, contents: Vec<LogEntry>) -> (logs: Result<Vec<LogEntry>, String>)
        ensures
            logs matches Ok(out) && views(out@) == pipeline(
                views(contents@),
                self.level_filter,
                self.date_filter,
                self.reverse,
                self.limit,
            ),
    {
        Ok(local_pipeline(contents, self.level_filter, self.date_filter, self.reverse, self.limit))
    }
}

} // verus!
