//! Device drivers.

pub mod serial;
pub mod vga;
