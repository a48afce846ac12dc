//! CPU tables: GDT and IDT.

pub mod gdt;
pub mod idt;
