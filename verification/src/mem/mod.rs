//! The cartridge and the address space it is mapped into.

pub mod cart;
pub mod controller;
pub mod memory;
