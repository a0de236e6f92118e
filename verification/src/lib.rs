//! A tiny register-based virtual CPU.
//!
//! The machine executes a fixed-width instruction set against a flat
//! 16-bit address space. One reserved address (`0xFFFF`) acts as a
//! memory-mapped character device: the core never performs I/O itself,
//! it reports device traffic to its driver through [`machine::StepEffect`].

pub mod errors;
pub mod laws;
pub mod machine;
pub mod registers;
