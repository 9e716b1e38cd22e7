pub mod thread_structs;
