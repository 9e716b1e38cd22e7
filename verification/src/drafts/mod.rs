//! Data structures under trial.
pub mod hashed_deque;
