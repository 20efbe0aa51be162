//! The executable headers the engines are recognized by.

pub mod elf;
pub mod macho;
pub mod pe;
