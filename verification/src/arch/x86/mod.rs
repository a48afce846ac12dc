//! 32-bit x86.

pub mod cpu;
