//! The operands that an opcode byte names: registers, register pairs,
//! directions, conditions and arithmetic operations.

use crate::cpu::register::types::Flags;
use crate::cpu::register::types::Register16;
use crate::cpu::register::types::Register8;
use vstd::prelude::*;
use vstd::std_specs::convert::FromSpecImpl;

verus! {

/// An 8-bit operand, as three bits of an opcode name it: one of seven byte
/// registers, or `HL` for the byte in memory at the address in HL.
#[derive(Clone, Copy, Debug, PartialEq, Eq, Structural)]
pub enum OpcodeRegister8 {
    B,
    C,
    D,
    E,
    H,
    L,
    HL,
    A,
}

impl OpcodeRegister8 {
    /// The three bits that name this operand.
    pub open spec fn index(self) -> u8 {
        match self {
            OpcodeRegister8::B => 0,
            OpcodeRegister8::C => 1,
            OpcodeRegister8::D => 2,
            OpcodeRegister8::E => 3,
            OpcodeRegister8::H => 4,
            OpcodeRegister8::L => 5,
            OpcodeRegister8::HL => 6,
            OpcodeRegister8::A => 7,
        }
    }

    /// The operand with the three bits `value`.
    pub open spec fn at(value: int) -> OpcodeRegister8 {
        if value == 0 {
            OpcodeRegister8::B
        } else if value == 1 {
            OpcodeRegister8::C
        } else if value == 2 {
            OpcodeRegister8::D
        } else if value == 3 {
            OpcodeRegister8::E
        } else if value == 4 {
            OpcodeRegister8::H
        } else if value == 5 {
            OpcodeRegister8::L
        } else if value == 6 {
            OpcodeRegister8::HL
        } else {
            OpcodeRegister8::A
        }
    }

    /// The byte register that this operand names. The memory operand `HL`
    /// names none and is given the flag byte's slot.
    pub open spec fn register(self) -> Register8 {
        match self {
            OpcodeRegister8::B => Register8::B,
            OpcodeRegister8::C => Register8::C,
            OpcodeRegister8::D => Register8::D,
            OpcodeRegister8::E => Register8::E,
            OpcodeRegister8::H => Register8::H,
            OpcodeRegister8::L => Register8::L,
            OpcodeRegister8::HL => Register8::F,
            OpcodeRegister8::A => Register8::A,
        }
    }

    /// The operand that the three bits `value` name.
    pub fn from_u8(value: u8) -> (r: OpcodeRegister8)
        requires
            value <= 7,
        ensures
            r == OpcodeRegister8::at(value as int),
            r.index() == value,
    {
        match value {
            0 => OpcodeRegister8::B,
            1 => OpcodeRegister8::C,
            2 => OpcodeRegister8::D,
            3 => OpcodeRegister8::E,
            4 => OpcodeRegister8::H,
            5 => OpcodeRegister8::L,
            6 => OpcodeRegister8::HL,
            _ => OpcodeRegister8::A,
        }
    }
}

impl From<OpcodeRegister8> for Register8 {
    fn from(value: OpcodeRegister8) -> (r: Register8) {
        match value {
            OpcodeRegister8::B => Register8::B,
            OpcodeRegister8::C => Register8::C,
            OpcodeRegister8::D => Register8::D,
            OpcodeRegister8::E => Register8::E,
            OpcodeRegister8::H => Register8::H,
            OpcodeRegister8::L => Register8::L,
            OpcodeRegister8::HL => Register8::F,
            OpcodeRegister8::A => Register8::A,
        }
    }
}

impl FromSpecImpl<OpcodeRegister8> for Register8 {
    open spec fn obeys_from_spec() -> bool {
        true
    }

    open spec fn from_spec(value: OpcodeRegister8) -> Register8 {
        value.register()
    }
}

/// A register pair used as an address, as two bits of an opcode name it. With
/// `HLInc` and `HLDec` the address is HL, which then moves one up or one down.
#[derive(Clone, Copy, Debug, PartialEq, Eq, Structural)]
pub enum OpcodeIndirectRegister16 {
    BC,
    DE,
    HLInc,
    HLDec,
}

impl OpcodeIndirectRegister16 {
    /// The two bits that name this operand.
    pub open spec fn index(self) -> u8 {
        match self {
            OpcodeIndirectRegister16::BC => 0,
            OpcodeIndirectRegister16::DE => 1,
            OpcodeIndirectRegister16::HLInc => 2,
            OpcodeIndirectRegister16::HLDec => 3,
        }
    }

    /// The operand with the two bits `value`.
    pub open spec fn at(value: int) -> OpcodeIndirectRegister16 {
        if value == 0 {
            OpcodeIndirectRegister16::BC
        } else if value == 1 {
            OpcodeIndirectRegister16::DE
        } else if value == 2 {
            OpcodeIndirectRegister16::HLInc
        } else {
            OpcodeIndirectRegister16::HLDec
        }
    }

    /// The 16-bit register that holds the address.
    pub open spec fn register(self) -> Register16 {
        match self {
            OpcodeIndirectRegister16::BC => Register16::BC,
            OpcodeIndirectRegister16::DE => Register16::DE,
            OpcodeIndirectRegister16::HLInc => Register16::HL,
            OpcodeIndirectRegister16::HLDec => Register16::HL,
        }
    }

    /// The operand that the two bits `value` name.
    pub fn from_u8(value: u8) -> (r: OpcodeIndirectRegister16)
        requires
            value <= 3,
        ensures
            r == OpcodeIndirectRegister16::at(value as int),
            r.index() == value,
    {
        match value {
            0 => OpcodeIndirectRegister16::BC,
            1 => OpcodeIndirectRegister16::DE,
            2 => OpcodeIndirectRegister16::HLInc,
            _ => OpcodeIndirectRegister16::HLDec,
        }
    }
}

impl From<OpcodeIndirectRegister16> for Register16 {
    fn from(value: OpcodeIndirectRegister16) -> (r: Register16) {
        match value {
            OpcodeIndirectRegister16::BC => Register16::BC,
            OpcodeIndirectRegister16::DE => Register16::DE,
            _ => Register16::HL,
        }
    }
}

impl FromSpecImpl<OpcodeIndirectRegister16> for Register16 {
    open spec fn obeys_from_spec() -> bool {
        true
    }

    open spec fn from_spec(value: OpcodeIndirectRegister16) -> Register16 {
        value.register()
    }
}

/// Which way a load between the accumulator and memory goes: `Memory` writes
/// the accumulator to memory, `Accumulator` reads memory into the accumulator.
#[derive(Clone, Copy, Debug, PartialEq, Eq, Structural)]
pub enum LoadDirection {
    Memory,
    Accumulator,
}

/// A 16-bit register, as two bits of an opcode name it.
#[derive(Clone, Copy, Debug, PartialEq, Eq, Structural)]
pub enum OpcodeRegister16 {
    BC,
    DE,
    HL,
    AF,
}

impl OpcodeRegister16 {
    /// The two bits that name this operand.
    pub open spec fn index(self) -> u8 {
        match self {
            OpcodeRegister16::BC => 0,
            OpcodeRegister16::DE => 1,
            OpcodeRegister16::HL => 2,
            OpcodeRegister16::AF => 3,
        }
    }

    /// The operand with the two bits `value`.
    pub open spec fn at(value: int) -> OpcodeRegister16 {
        if value == 0 {
            OpcodeRegister16::BC
        } else if value == 1 {
            OpcodeRegister16::DE
        } else if value == 2 {
            OpcodeRegister16::HL
        } else {
            OpcodeRegister16::AF
        }
    }

    /// The 16-bit register that this operand names.
    pub open spec fn register(self) -> Register16 {
        match self {
            OpcodeRegister16::BC => Register16::BC,
            OpcodeRegister16::DE => Register16::DE,
            OpcodeRegister16::HL => Register16::HL,
            OpcodeRegister16::AF => Register16::AF,
        }
    }

    /// The operand that the two bits `value` name.
    pub fn from_u8(value: u8) -> (r: OpcodeRegister16)
        requires
            value <= 3,
        ensures
            r == OpcodeRegister16::at(value as int),
            r.index() == value,
    {
        match value {
            0 => OpcodeRegister16::BC,
            1 => OpcodeRegister16::DE,
            2 => OpcodeRegister16::HL,
            _ => OpcodeRegister16::AF,
        }
    }
}

impl From<OpcodeRegister16> for Register16 {
    fn from(value: OpcodeRegister16) -> (r: Register16) {
        match value {
            OpcodeRegister16::BC => Register16::BC,
            OpcodeRegister16::DE => Register16::DE,
            OpcodeRegister16::HL => Register16::HL,
            OpcodeRegister16::AF => Register16::AF,
        }
    }
}

impl FromSpecImpl<OpcodeRegister16> for Register16 {
    open spec fn obeys_from_spec() -> bool {
        true
    }

    open spec fn from_spec(value: OpcodeRegister16) -> Register16 {
        value.register()
    }
}

/// When a jump, call or return is taken: always, while a flag is set, or
/// while a flag is clear.
#[derive(Clone, Copy, Debug, PartialEq, Eq, Structural)]
pub enum JumpCondition {
    Always,
    SetFlag(Flags),
    UnsetFlag(Flags),
}

/// One of the eight operations of the arithmetic unit on the accumulator and
/// a byte.
#[derive(Clone, Copy, Debug, PartialEq, Eq, Structural)]
pub enum MathOp {
    Add,
    Adc,
    Sub,
    Sbc,
    And,
    Xor,
    Or,
    Cp,
}

impl MathOp {
    /// The three bits that name this operation.
    pub open spec fn index(self) -> u8 {
        match self {
            MathOp::Add => 0,
            MathOp::Adc => 1,
            MathOp::Sub => 2,
            MathOp::Sbc => 3,
            MathOp::And => 4,
            MathOp::Xor => 5,
            MathOp::Or => 6,
            MathOp::Cp => 7,
        }
    }

    /// The operation with the three bits `value`.
    pub open spec fn at(value: int) -> MathOp {
        if value == 0 {
            MathOp::Add
        } else if value == 1 {
            MathOp::Adc
        } else if value == 2 {
            MathOp::Sub
        } else if value == 3 {
            MathOp::Sbc
        } else if value == 4 {
            MathOp::And
        } else if value == 5 {
            MathOp::Xor
        } else if value == 6 {
            MathOp::Or
        } else {
            MathOp::Cp
        }
    }

    /// The operation that the three bits `value` name.
    pub fn from_u8(value: u8) -> (r: MathOp)
        requires
            value <= 7,
        ensures
            r == MathOp::at(value as int),
            r.index() == value,
    {
        match value {
            0 => MathOp::Add,
            1 => MathOp::Adc,
            2 => MathOp::Sub,
            3 => MathOp::Sbc,
            4 => MathOp::And,
            5 => MathOp::Xor,
            6 => MathOp::Or,
            _ => MathOp::Cp,
        }
    }
}

} // verus!
