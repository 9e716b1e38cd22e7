//! ANSI control sequences and a terminal that collects coloured text.
pub mod ansi_sequences;
pub mod terminal;
