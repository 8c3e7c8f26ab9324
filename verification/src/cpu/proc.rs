//! The processor: its registers and its interrupt switch.

use crate::cpu::register::Registers;
use vstd::prelude::*;

verus! {

/// The processor: its registers, its interrupt switch, and a scratch word.
#[derive(Clone, Copy, Debug, PartialEq, Eq, Structural)]
pub struct Cpu {
    pub registers: Registers,
    /// The interrupt master enable: 1 while interrupts are enabled, 0 while
    /// they are not.
    pub ime: u8,
    pub cache: u16,
}

impl Cpu {
    /// The processor at power-on: every register zero, interrupts disabled.
    pub open spec fn power_on() -> Cpu {
        Cpu { registers: Registers::zeroed(), ime: 0, cache: 0 }
    }
}

impl Default for Cpu {
    /// The processor at power-on.
    fn default() -> (r: Cpu)
        ensures
            r == Cpu::power_on(),
    {
        Cpu { registers: Registers::default(), ime: 0, cache: 0 }
    }
}

} // verus!
