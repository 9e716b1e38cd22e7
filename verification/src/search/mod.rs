//! What a file search reports.
pub mod info;
pub mod formatters;
pub mod file_search;
pub mod file;
pub mod progress;
