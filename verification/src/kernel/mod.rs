//! Architecture-independent kernel logic: drivers, exception handling and
//! the freestanding memory routines.

pub mod drivers;
pub mod interrupts;
pub mod support;
pub mod text;
