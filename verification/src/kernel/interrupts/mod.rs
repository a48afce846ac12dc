//! Exception handling.

pub mod exceptions;
