//! The processor core of a classic 8-bit handheld console: the register file
//! with its overlapping 8-bit and 16-bit views, the 16-bit address space with
//! its fixed regions, the opcode decoder and the execution engine.
//!
//! Every executable function carries a contract over a mathematical model of
//! the machine, and the proofs of those contracts are checked by Verus.

pub mod cpu;
pub mod gba;
pub mod mem;
pub mod word;
