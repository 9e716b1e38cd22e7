//! Python installations, packages, virtual environments and release files.
pub mod pip;
pub mod python;
pub mod python_ftp;
pub mod version;
pub mod virtualenv;
