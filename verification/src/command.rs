//! The command line, as the values that it was parsed into.

use vstd::prelude::*;
use std::path::PathBuf;

verus! {

/// `std::path::PathBuf`, carried through as an opaque value.
#[verifier::external_type_specification]
#[verifier::external_body]
pub struct ExPathBuf(PathBuf);

/// A clone of a path is the same path.
pub assume_specification[ <PathBuf as Clone>::clone ](path: &PathBuf) -> (copy: PathBuf)
    ensures
        copy == *path,
;

/// The options of one run.
#[derive(Debug)]
pub struct Cli {
    /// Where the records come from.
    pub input: InputCommand,
    /// Reverse the records before the limit is applied.
    pub reverse: bool,
    /// Keep only the records of this level.
    pub level: Option<String>,
    /// Show the records as compact JSON.
    pub json: bool,
    /// Remove what the sink holds before saving.
    pub truncate: bool,
    /// Save the records to this file.
    pub save_to_file: Option<PathBuf>,
    /// Show the number of records.
    pub count: bool,
    /// Show a summary of the records.
    pub summary: bool,
    /// Save the records to this Elasticsearch index.
    pub save_to_es_index: Option<String>,
    /// Keep at most this many records, counted from the first.
    pub limit: Option<i64>,
    /// Keep only the records inside this window of time.
    pub date_filter: Option<String>,
    /// Show each record as a block of text.
    pub pretty_json: bool,
    /// Log what the run does.
    pub verbose: bool,
}

/// The source of the records: one of the three is expected to be given.
#[derive(Debug)]
pub struct InputCommand {
    /// Read the records from this file.
    pub input_file: Option<PathBuf>,
    /// Fetch the records from the address configured under this name.
    pub input_url: Option<String>,
    /// Search the records in this Elasticsearch index.
    pub input_es_index: Option<String>,
}

} // verus!
