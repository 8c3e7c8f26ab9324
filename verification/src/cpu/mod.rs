//! The processor state: flags, registers and the interrupt switch.

pub mod proc;
pub mod register;
