//! The commands of the command line and their options.
pub mod configuration;
pub mod python;
pub mod rust;
pub mod search;
