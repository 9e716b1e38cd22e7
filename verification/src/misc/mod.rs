//! Downloads over HTTPS and the handling of an interrupt.
pub mod https;
pub mod interrupt_handler;
