//! The instruction set and the engine that executes it.

pub mod console;
pub mod laws;
pub mod machine;
pub mod opcode;
