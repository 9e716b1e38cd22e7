//! Python releases.
pub mod ftp;
