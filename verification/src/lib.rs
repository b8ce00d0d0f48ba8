//! A batch pipeline for structured log records: normalisation, filtering,
//! ordering, and the decisions of the sources, sinks and renderers around it.

pub mod command;
pub mod count_output;
pub mod date_filter;
pub mod es_get;
pub mod es_save;
pub mod file_get;
pub mod file_save;
pub mod json_output;
pub mod json_pretty_output;
pub mod log_entry;
pub mod log_processor;
pub mod log_processor_options;
pub mod pipeline;
pub mod summary_output;
pub mod text;
pub mod url_get;
