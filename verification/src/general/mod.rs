//! General purpose building blocks: versions, paths, shell responses, tables, terminal output.
pub mod dynamic_table;
pub mod grid_printer;
pub mod http;
pub mod path;
pub mod pre_release_order;
pub mod shell;
pub mod table_display;
pub mod terminal;
pub mod version;
pub mod writer;
