//! Arranger: command-line tooling for Python environments, Rust task files and
//! file search, organised as a verified library of parsers, formatters and
//! terminal state machines.
pub mod ansi_support;
pub mod commands;
pub mod drafts;
pub mod general;
pub mod languages;
pub mod misc;
pub mod parsers;
pub mod python;
pub mod rust;
pub mod search;
pub mod shell;
pub mod terminal;
pub mod text;
pub mod threading;
pub mod utils;
