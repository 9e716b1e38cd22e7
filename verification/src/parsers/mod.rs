//! Parsers of configuration files.
pub mod cfg_parser;
