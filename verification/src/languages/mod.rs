//! Support for programming languages.
pub mod python;
