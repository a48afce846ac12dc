//! Architecture-specific code (currently 32-bit x86 only).

pub mod x86;
