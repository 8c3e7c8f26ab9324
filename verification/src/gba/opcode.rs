//! The instructions, and the decoder from an opcode byte to an instruction.
//!
//! An instruction carries what its opcode byte names: a register, a condition,
//! a direction. It never carries an immediate operand: those are read from
//! memory when the instruction is executed.

pub mod types;

use crate::cpu::register::types::Flags;
use crate::gba::opcode::types::JumpCondition;
use crate::gba::opcode::types::LoadDirection;
use crate::gba::opcode::types::MathOp;
use crate::gba::opcode::types::OpcodeIndirectRegister16;
use crate::gba::opcode::types::OpcodeRegister16;
use crate::gba::opcode::types::OpcodeRegister8;
use vstd::prelude::*;

verus! {

/// An instruction, with the operands that its opcode byte names.
#[derive(Clone, Copy, Debug, PartialEq, Eq, Structural)]
pub enum Opcode {
    /// Copies the second 8-bit operand to the first.
    LoadR8(OpcodeRegister8, OpcodeRegister8),
    /// Copies the next byte of the program to the 8-bit operand.
    LoadImm8(OpcodeRegister8),
    /// Moves a byte between the accumulator and memory at the address in the
    /// register pair.
    LoadIndR16(OpcodeIndirectRegister16, LoadDirection),
    /// Moves a byte between the accumulator and the I/O port that the next
    /// byte of the program names.
    LoadIndOffImm8(LoadDirection),
    /// Moves a byte between the accumulator and the I/O port that register C
    /// names.
    LoadIndOffRegC(LoadDirection),
    /// Moves a byte between the accumulator and memory at the address in the
    /// next two bytes of the program.
    LoadIndImm16(LoadDirection),
    /// Copies the next two bytes of the program to the 16-bit register.
    LoadImm16(OpcodeRegister16),
    /// Writes the stack pointer to memory at the address in the next two
    /// bytes of the program.
    LoadIndImm16SP,
    /// Copies HL to the stack pointer.
    LoadSPHL,
    /// Pushes the 16-bit register.
    PushR16(OpcodeRegister16),
    /// Pops a word into the 16-bit register.
    PopR16(OpcodeRegister16),
    /// Adds the next byte of the program to the stack pointer, reads the word
    /// at that address, and sets the flags by the sum. HL and the stack
    /// pointer stay as they are.
    LoadHLOffSp,
    /// Applies the arithmetic operation to the accumulator and the 8-bit
    /// operand.
    MathR8(MathOp, OpcodeRegister8),
    /// Applies the arithmetic operation to the accumulator and the next byte
    /// of the program.
    MathImm8(MathOp),
    /// Adds 1 to the 8-bit operand.
    IncR8(OpcodeRegister8),
    /// Takes 1 from the 8-bit operand.
    DecR8(OpcodeRegister8),
    /// Inverts the carry flag.
    ComplementCarryFlag,
    /// Sets the carry flag.
    SetCarryFlag,
    /// Adjusts the accumulator to two decimal digits.
    DecimalAdjustAccumulator,
    /// Inverts every bit of the accumulator.
    ComplementAccumulator,
    /// Adds 1 to the 16-bit register.
    IncR16(OpcodeRegister16),
    /// Takes 1 from the 16-bit register.
    DecR16(OpcodeRegister16),
    /// Adds the 16-bit register to HL.
    AddR16(OpcodeRegister16),
    /// Moves the stack pointer by the next byte of the program, read as a
    /// signed displacement.
    AddSPImm8,
    /// Moves the accumulator one bit up. Bit 0 becomes zero, and every flag is
    /// cleared.
    RotateLeftCircularAccumulator,
    /// Moves the accumulator one bit down. Bit 7 becomes zero, and every flag
    /// is cleared.
    RotateRightCircularAccumulator,
    /// Moves the accumulator one bit up. Bit 0 becomes the carry flag, and
    /// every flag is cleared.
    RotateLeftAccumulator,
    /// Moves the accumulator one bit down. Bit 7 becomes the carry flag, and
    /// every flag is cleared.
    RotateRightAccumulator,
    /// Jumps to the address in the next two bytes of the program, if the
    /// condition holds.
    JumpImm16(JumpCondition),
    /// Jumps to the address in HL.
    JumpHL,
    /// Jumps by the next byte of the program, read as a signed displacement,
    /// if the condition holds.
    JumpOffImm8(JumpCondition),
    /// Calls the address in the next two bytes of the program, if the
    /// condition holds.
    CallImm16(JumpCondition),
    /// Returns to the address on top of the stack, if the condition holds.
    Return(JumpCondition),
    /// Returns to the address on top of the stack and enables interrupts.
    ReturnInterupt,
    /// Calls the address that the byte names, one of the first 256.
    Restart(u8),
    /// Stops the processor until an interrupt. The engine does not have it,
    /// and no opcode byte stands for it.
    Halt,
    /// Stops the processor and the screen. The engine does not have it.
    Stop,
    /// Disables interrupts.
    DisableInterrupts,
    /// Enables interrupts.
    EnableInterrupts,
    /// Does nothing.
    Noop,
}

impl Opcode {
    /// The instruction of an opcode byte that stands alone in the table, if
    /// `value` is one of those.
    pub open spec fn single(value: u8) -> Option<Opcode> {
        match value {
            0x00 => Some(Opcode::Noop),
            0x07 => Some(Opcode::RotateLeftCircularAccumulator),
            0x08 => Some(Opcode::LoadIndImm16SP),
            0x0F => Some(Opcode::RotateRightCircularAccumulator),
            0x10 => Some(Opcode::Stop),
            0x17 => Some(Opcode::RotateLeftAccumulator),
            0x1F => Some(Opcode::RotateRightAccumulator),
            0x20 => Some(Opcode::JumpOffImm8(JumpCondition::UnsetFlag(Flags::Zero))),
            0x27 => Some(Opcode::DecimalAdjustAccumulator),
            0x2F => Some(Opcode::ComplementAccumulator),
            0x30 => Some(Opcode::JumpOffImm8(JumpCondition::UnsetFlag(Flags::Carry))),
            0x37 => Some(Opcode::SetCarryFlag),
            0x3F => Some(Opcode::ComplementCarryFlag),
            0xC0 => Some(Opcode::Return(JumpCondition::UnsetFlag(Flags::Zero))),
            0xC2 => Some(Opcode::JumpImm16(JumpCondition::UnsetFlag(Flags::Zero))),
            0xC3 => Some(Opcode::JumpImm16(JumpCondition::Always)),
            0xC4 => Some(Opcode::CallImm16(JumpCondition::UnsetFlag(Flags::Zero))),
            0xC8 => Some(Opcode::Return(JumpCondition::SetFlag(Flags::Zero))),
            0xC9 => Some(Opcode::Return(JumpCondition::Always)),
            0xCA => Some(Opcode::JumpImm16(JumpCondition::SetFlag(Flags::Zero))),
            0xCC => Some(Opcode::CallImm16(JumpCondition::SetFlag(Flags::Zero))),
            0xCD => Some(Opcode::CallImm16(JumpCondition::Always)),
            0xD0 => Some(Opcode::Return(JumpCondition::UnsetFlag(Flags::Carry))),
            0xD2 => Some(Opcode::JumpImm16(JumpCondition::UnsetFlag(Flags::Carry))),
            0xD4 => Some(Opcode::CallImm16(JumpCondition::UnsetFlag(Flags::Carry))),
            0xD8 => Some(Opcode::Return(JumpCondition::SetFlag(Flags::Carry))),
            0xD9 => Some(Opcode::ReturnInterupt),
            0xDA => Some(Opcode::JumpImm16(JumpCondition::SetFlag(Flags::Carry))),
            0xDC => Some(Opcode::CallImm16(JumpCondition::SetFlag(Flags::Carry))),
            0xE0 => Some(Opcode::LoadIndOffImm8(LoadDirection::Memory)),
            0xE2 => Some(Opcode::LoadIndOffRegC(LoadDirection::Memory)),
            0xE8 => Some(Opcode::AddSPImm8),
            0xE9 => Some(Opcode::JumpHL),
            0xEA => Some(Opcode::LoadIndImm16(LoadDirection::Memory)),
            0xF0 => Some(Opcode::LoadIndOffImm8(LoadDirection::Accumulator)),
            0xF2 => Some(Opcode::LoadIndOffRegC(LoadDirection::Accumulator)),
            0xF3 => Some(Opcode::DisableInterrupts),
            0xF8 => Some(Opcode::LoadHLOffSp),
            0xF9 => Some(Opcode::LoadSPHL),
            0xFA => Some(Opcode::LoadIndImm16(LoadDirection::Accumulator)),
            0xFB => Some(Opcode::EnableInterrupts),
            _ => None,
        }
    }

    /// The instruction in row `row` (0 to 3) of the first quarter of the
    /// table, by the lower four bits `low` of its byte. The row names a 16-bit
    /// register, and two 8-bit operands: one for the left half of the row and
    /// one for the right half.
    pub open spec fn in_first_quarter(row: int, low: int) -> Option<Opcode> {
        if low == 0x1 {
            Some(Opcode::LoadImm16(OpcodeRegister16::at(row)))
        } else if low == 0x2 {
            Some(Opcode::LoadIndR16(OpcodeIndirectRegister16::at(row), LoadDirection::Memory))
        } else if low == 0x3 {
            Some(Opcode::IncR16(OpcodeRegister16::at(row)))
        } else if low == 0x4 {
            Some(Opcode::IncR8(OpcodeRegister8::at(2 * row)))
        } else if low == 0x5 {
            Some(Opcode::DecR8(OpcodeRegister8::at(2 * row)))
        } else if low == 0x6 {
            Some(Opcode::LoadImm8(OpcodeRegister8::at(2 * row)))
        } else if low == 0x9 {
            Some(Opcode::AddR16(OpcodeRegister16::at(row)))
        } else if low == 0xA {
            Some(
                Opcode::LoadIndR16(OpcodeIndirectRegister16::at(row), LoadDirection::Accumulator),
            )
        } else if low == 0xB {
            Some(Opcode::DecR16(OpcodeRegister16::at(row)))
        } else if low == 0xC {
            Some(Opcode::IncR8(OpcodeRegister8::at(2 * row + 1)))
        } else if low == 0xD {
            Some(Opcode::DecR8(OpcodeRegister8::at(2 * row + 1)))
        } else if low == 0xE {
            Some(Opcode::LoadImm8(OpcodeRegister8::at(2 * row + 1)))
        } else {
            None
        }
    }

    /// The instruction in row `row` (0 to 3) of the last quarter of the table,
    /// by the lower four bits `low` of its byte. The row names a 16-bit
    /// register, two arithmetic operations and two restart addresses.
    pub open spec fn in_last_quarter(row: int, low: int) -> Option<Opcode> {
        if low == 0x1 {
            Some(Opcode::PopR16(OpcodeRegister16::at(row)))
        } else if low == 0x5 {
            Some(Opcode::PushR16(OpcodeRegister16::at(row)))
        } else if low == 0x6 {
            Some(Opcode::MathImm8(MathOp::at(2 * row)))
        } else if low == 0x7 {
            Some(Opcode::Restart((16 * row) as u8))
        } else if low == 0xE {
            Some(Opcode::MathImm8(MathOp::at(2 * row + 1)))
        } else if low == 0xF {
            Some(Opcode::Restart((16 * row + 8) as u8))
        } else {
            None
        }
    }

    /// The instruction that the opcode byte `value` stands for, if it stands
    /// for one.
    ///
    /// The bytes 0x40 to 0x7F are the loads between 8-bit operands: bits 5 to
    /// 3 name the destination, bits 2 to 0 the source. The bytes 0x80 to 0xBF
    /// are the arithmetic on the accumulator: bits 5 to 3 name the operation,
    /// bits 2 to 0 the operand. Of the other bytes, some stand alone and the
    /// rest are found by row and column. The byte 0xCB, which opens a second
    /// page of instructions, stands for none, as do fourteen more.
    pub open spec fn parse(value: u8) -> Option<Opcode> {
        if 0x40 <= value <= 0x7F {
            Some(
                Opcode::LoadR8(
                    OpcodeRegister8::at(((value / 8) % 8) as int),
                    OpcodeRegister8::at((value % 8) as int),
                ),
            )
        } else if 0x80 <= value <= 0xBF {
            Some(
                Opcode::MathR8(MathOp::at(((value / 8) % 8) as int), OpcodeRegister8::at((value % 8) as int)),
            )
        } else if Opcode::single(value) is Some {
            Opcode::single(value)
        } else if value < 0x40 {
            Opcode::in_first_quarter((value / 16) as int, (value % 16) as int)
        } else {
            Opcode::in_last_quarter(value / 16 - 12, (value % 16) as int)
        }
    }

    /// Whether this instruction is one of the twelve kinds of load.
    pub open spec fn is_load(self) -> bool {
        matches!(
            self,
            Opcode::LoadR8(_, _) | Opcode::LoadImm8(_) | Opcode::LoadIndR16(_, _)
                | Opcode::LoadIndOffImm8(_) | Opcode::LoadIndOffRegC(_) | Opcode::LoadIndImm16(_)
                | Opcode::LoadImm16(_) | Opcode::LoadIndImm16SP | Opcode::LoadSPHL
                | Opcode::PushR16(_) | Opcode::PopR16(_) | Opcode::LoadHLOffSp
        )
    }

    /// Whether this instruction is one of the sixteen kinds of arithmetic,
    /// flag and rotate instructions.
    pub open spec fn is_arithmetic(self) -> bool {
        matches!(
            self,
            Opcode::MathR8(_, _) | Opcode::MathImm8(_) | Opcode::IncR8(_) | Opcode::DecR8(_)
                | Opcode::ComplementCarryFlag | Opcode::SetCarryFlag
                | Opcode::DecimalAdjustAccumulator | Opcode::ComplementAccumulator
                | Opcode::IncR16(_) | Opcode::DecR16(_) | Opcode::AddR16(_) | Opcode::AddSPImm8
                | Opcode::RotateLeftCircularAccumulator | Opcode::RotateRightCircularAccumulator
                | Opcode::RotateLeftAccumulator | Opcode::RotateRightAccumulator
        )
    }

    /// Whether this instruction is a jump, a call or a return: one that may
    /// set the program counter.
    pub open spec fn is_jump(self) -> bool {
        matches!(
            self,
            Opcode::JumpImm16(_) | Opcode::JumpHL | Opcode::JumpOffImm8(_) | Opcode::CallImm16(_)
                | Opcode::Return(_) | Opcode::ReturnInterupt | Opcode::Restart(_)
        )
    }

    /// The number of bytes of the program that this instruction reads after
    /// its opcode byte: those of its immediate operand.
    pub open spec fn operand_bytes(self) -> int {
        match self {
            Opcode::LoadImm8(_) => 1,
            Opcode::LoadIndOffImm8(_) => 1,
            Opcode::LoadHLOffSp => 1,
            Opcode::MathImm8(_) => 1,
            Opcode::AddSPImm8 => 1,
            Opcode::JumpOffImm8(_) => 1,
            Opcode::LoadIndImm16(_) => 2,
            Opcode::LoadImm16(_) => 2,
            Opcode::LoadIndImm16SP => 2,
            Opcode::JumpImm16(_) => 2,
            Opcode::CallImm16(_) => 2,
            _ => 0,
        }
    }

    /// The byte of the load from the operand `src` to the operand `dst`.
    pub open spec fn load_byte(dst: OpcodeRegister8, src: OpcodeRegister8) -> u8 {
        (0x40 + 8 * dst.index() + src.index()) as u8
    }

    /// The byte of the arithmetic operation `op` on the operand `src`.
    pub open spec fn math_byte(op: MathOp, src: OpcodeRegister8) -> u8 {
        (0x80 + 8 * op.index() + src.index()) as u8
    }

    /// Decodes the opcode byte `value`, or finds that it stands for no
    /// instruction.
    pub fn decode(value: u8) -> (r: Option<Opcode>)
        ensures
            r == Opcode::parse(value),
    {
        let low: u8 = value & 0x0F;
        let high: u8 = value >> 4;
        let row: u8 = high & 0x03;
        let mid: u8 = (value & 0x38) >> 3;
        let last: u8 = value & 0x07;
        proof {
            lemma_fields(value);
        }
        match value {
            0x00 => Some(Opcode::Noop),
            0x07 => Some(Opcode::RotateLeftCircularAccumulator),
            0x08 => Some(Opcode::LoadIndImm16SP),
            0x0F => Some(Opcode::RotateRightCircularAccumulator),
            0x10 => Some(Opcode::Stop),
            0x17 => Some(Opcode::RotateLeftAccumulator),
            0x1F => Some(Opcode::RotateRightAccumulator),
            0x20 => Some(Opcode::JumpOffImm8(JumpCondition::UnsetFlag(Flags::Zero))),
            0x27 => Some(Opcode::DecimalAdjustAccumulator),
            0x2F => Some(Opcode::ComplementAccumulator),
            0x30 => Some(Opcode::JumpOffImm8(JumpCondition::UnsetFlag(Flags::Carry))),
            0x37 => Some(Opcode::SetCarryFlag),
            0x3F => Some(Opcode::ComplementCarryFlag),
            0x40..=0x7F => Some(
                Opcode::LoadR8(OpcodeRegister8::from_u8(mid), OpcodeRegister8::from_u8(last)),
            ),
            0x80..=0xBF => Some(
                Opcode::MathR8(MathOp::from_u8(mid), OpcodeRegister8::from_u8(last)),
            ),
            0xC0 => Some(Opcode::Return(JumpCondition::UnsetFlag(Flags::Zero))),
            0xC2 => Some(Opcode::JumpImm16(JumpCondition::UnsetFlag(Flags::Zero))),
            0xC3 => Some(Opcode::JumpImm16(JumpCondition::Always)),
            0xC4 => Some(Opcode::CallImm16(JumpCondition::UnsetFlag(Flags::Zero))),
            0xC8 => Some(Opcode::Return(JumpCondition::SetFlag(Flags::Zero))),
            0xC9 => Some(Opcode::Return(JumpCondition::Always)),
            0xCA => Some(Opcode::JumpImm16(JumpCondition::SetFlag(Flags::Zero))),
            0xCB => None,
            0xCC => Some(Opcode::CallImm16(JumpCondition::SetFlag(Flags::Zero))),
            0xCD => Some(Opcode::CallImm16(JumpCondition::Always)),
            0xD0 => Some(Opcode::Return(JumpCondition::UnsetFlag(Flags::Carry))),
            0xD2 => Some(Opcode::JumpImm16(JumpCondition::UnsetFlag(Flags::Carry))),
            0xD4 => Some(Opcode::CallImm16(JumpCondition::UnsetFlag(Flags::Carry))),
            0xD8 => Some(Opcode::Return(JumpCondition::SetFlag(Flags::Carry))),
            0xD9 => Some(Opcode::ReturnInterupt),
            0xDA => Some(Opcode::JumpImm16(JumpCondition::SetFlag(Flags::Carry))),
            0xDC => Some(Opcode::CallImm16(JumpCondition::SetFlag(Flags::Carry))),
            0xE0 => Some(Opcode::LoadIndOffImm8(LoadDirection::Memory)),
            0xE2 => Some(Opcode::LoadIndOffRegC(LoadDirection::Memory)),
            0xE8 => Some(Opcode::AddSPImm8),
            0xE9 => Some(Opcode::JumpHL),
            0xEA => Some(Opcode::LoadIndImm16(LoadDirection::Memory)),
            0xF0 => Some(Opcode::LoadIndOffImm8(LoadDirection::Accumulator)),
            0xF2 => Some(Opcode::LoadIndOffRegC(LoadDirection::Accumulator)),
            0xF3 => Some(Opcode::DisableInterrupts),
            0xF8 => Some(Opcode::LoadHLOffSp),
            0xF9 => Some(Opcode::LoadSPHL),
            0xFA => Some(Opcode::LoadIndImm16(LoadDirection::Accumulator)),
            0xFB => Some(Opcode::EnableInterrupts),
            _ => if high <= 0x03 {
                match low {
                    0x01 => Some(Opcode::LoadImm16(OpcodeRegister16::from_u8(high))),
                    0x02 => Some(
                        Opcode::LoadIndR16(
                            OpcodeIndirectRegister16::from_u8(high),
                            LoadDirection::Memory,
                        ),
                    ),
                    0x03 => Some(Opcode::IncR16(OpcodeRegister16::from_u8(high))),
                    0x04 => Some(Opcode::IncR8(OpcodeRegister8::from_u8(high << 1))),
                    0x05 => Some(Opcode::DecR8(OpcodeRegister8::from_u8(high << 1))),
                    0x06 => Some(Opcode::LoadImm8(OpcodeRegister8::from_u8(high << 1))),
                    0x09 => Some(Opcode::AddR16(OpcodeRegister16::from_u8(high))),
                    0x0A => Some(
                        Opcode::LoadIndR16(
                            OpcodeIndirectRegister16::from_u8(high),
                            LoadDirection::Accumulator,
                        ),
                    ),
                    0x0B => Some(Opcode::DecR16(OpcodeRegister16::from_u8(high))),
                    0x0C => Some(Opcode::IncR8(OpcodeRegister8::from_u8((high << 1) | 1))),
                    0x0D => Some(Opcode::DecR8(OpcodeRegister8::from_u8((high << 1) | 1))),
                    0x0E => Some(Opcode::LoadImm8(OpcodeRegister8::from_u8((high << 1) | 1))),
                    _ => None,
                }
            } else {
                match low {
                    0x01 => Some(Opcode::PopR16(OpcodeRegister16::from_u8(row))),
                    0x05 => Some(Opcode::PushR16(OpcodeRegister16::from_u8(row))),
                    0x06 => Some(Opcode::MathImm8(MathOp::from_u8(row << 1))),
                    0x07 => Some(Opcode::Restart(row << 4)),
                    0x0E => Some(Opcode::MathImm8(MathOp::from_u8((row << 1) | 1))),
                    0x0F => Some(Opcode::Restart((row << 4) | 0x08)),
                    _ => None,
                }
            },
        }
    }

    /// Decodes the opcode byte `value`, which stands for an instruction.
    pub fn from_u8(value: u8) -> (r: Opcode)
        requires
            Opcode::parse(value) is Some,
        ensures
            Opcode::parse(value) == Some(r),
    {
        let decoded = Opcode::decode(value);
        decoded.unwrap()
    }
}

/// The bit fields of an opcode byte, as numbers.
proof fn lemma_fields(value: u8)
    by (bit_vector)
    ensures
        value & 0x0F == value % 16,
        value >> 4 == value / 16,
        (value & 0x38) >> 3 == (value / 8) % 8,
        value & 0x07 == value % 8,
        (value >> 4) & 0x03 == (value / 16) % 4,
        value < 0x40 ==> (value >> 4) << 1 == 2 * (value / 16),
        value < 0x40 ==> ((value >> 4) << 1) | 1 == 2 * (value / 16) + 1,
        ((value >> 4) & 0x03) << 1 == 2 * ((value / 16) % 4),
        (((value >> 4) & 0x03) << 1) | 1 == 2 * ((value / 16) % 4) + 1,
        ((value >> 4) & 0x03) << 4 == 16 * ((value / 16) % 4),
        (((value >> 4) & 0x03) << 4) | 0x08 == 16 * ((value / 16) % 4) + 8,
{
}

/// Each byte from 0x40 to 0x7F stands for a load whose destination is named
/// by bits 5 to 3 of the byte and whose source by bits 2 to 0, and the byte is
/// found again from the two.
pub proof fn lemma_load_block(value: u8)
    requires
        0x40 <= value <= 0x7F,
    ensures
        Opcode::parse(value) matches Some(Opcode::LoadR8(dst, src)) && dst.index() == (value / 8)
            % 8 && src.index() == value % 8 && Opcode::load_byte(dst, src) == value,
{
}

/// Each of the 64 loads between 8-bit operands has a byte from 0x40 to 0x7F,
/// and that byte stands for it.
pub proof fn lemma_load_byte(dst: OpcodeRegister8, src: OpcodeRegister8)
    ensures
        0x40 <= Opcode::load_byte(dst, src) <= 0x7F,
        Opcode::parse(Opcode::load_byte(dst, src)) == Some(Opcode::LoadR8(dst, src)),
{
}

/// Each byte from 0x80 to 0xBF stands for an arithmetic instruction whose
/// operation is named by bits 5 to 3 of the byte and whose operand by bits 2
/// to 0, and the byte is found again from the two.
pub proof fn lemma_math_block(value: u8)
    requires
        0x80 <= value <= 0xBF,
    ensures
        Opcode::parse(value) matches Some(Opcode::MathR8(op, src)) && op.index() == (value / 8) % 8
            && src.index() == value % 8 && Opcode::math_byte(op, src) == value,
{
}

/// The fifteen bytes that stand for no instruction: the byte of the second
/// page, three bytes of the first quarter and eleven of the last.
pub proof fn lemma_undefined(value: u8)
    ensures
        Opcode::parse(value) is None <==> (value == 0x18 || value == 0x28 || value == 0x38 || value
            == 0xCB || value == 0xD3 || value == 0xDB || value == 0xDD || value == 0xE3 || value
            == 0xE4 || value == 0xEB || value == 0xEC || value == 0xED || value == 0xF4 || value
            == 0xFC || value == 0xFD),
{
}

} // verus!
