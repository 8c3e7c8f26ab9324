//! The register file: eight byte registers, the stack pointer and the program
//! counter, read and written byte by byte or as 16-bit registers.
//!
//! A 16-bit register is its two byte slots, upper byte first: BC is B then C,
//! DE is D then E, HL is H then L, AF is A then the flag byte. The stack
//! pointer and the program counter are split into an upper and a lower slot in
//! the same way.

pub mod types;

use crate::cpu::register::types::Register16;
use crate::cpu::register::types::Register8;
use crate::cpu::register::types::F8;
use crate::word::high_byte;
use crate::word::low_byte;
use crate::word::lower;
use crate::word::make_word;
use crate::word::upper;
use crate::word::word;
use vstd::prelude::*;

verus! {

/// The register file. The eight byte registers and the flag byte are slots of
/// their own; the stack pointer and the program counter are 16-bit words.
#[derive(Clone, Copy, Debug, PartialEq, Eq, Structural)]
pub struct Registers {
    pub b: u8,
    pub c: u8,
    pub d: u8,
    pub e: u8,
    pub h: u8,
    pub l: u8,
    pub a: u8,
    pub f: F8,
    pub sp: u16,
    pub pc: u16,
}

impl Registers {
    /// The byte in the slot `reg`.
    pub open spec fn r8(self, reg: Register8) -> u8 {
        match reg {
            Register8::B => self.b,
            Register8::C => self.c,
            Register8::D => self.d,
            Register8::E => self.e,
            Register8::H => self.h,
            Register8::L => self.l,
            Register8::A => self.a,
            Register8::F => self.f.0,
            Register8::SPHigh => high_byte(self.sp),
            Register8::SPLow => low_byte(self.sp),
            Register8::PCHigh => high_byte(self.pc),
            Register8::PCLow => low_byte(self.pc),
        }
    }

    /// The register file with `value` in the slot `reg` and every other slot as
    /// it was.
    pub open spec fn with_r8(self, reg: Register8, value: u8) -> Registers {
        match reg {
            Register8::B => Registers { b: value, ..self },
            Register8::C => Registers { c: value, ..self },
            Register8::D => Registers { d: value, ..self },
            Register8::E => Registers { e: value, ..self },
            Register8::H => Registers { h: value, ..self },
            Register8::L => Registers { l: value, ..self },
            Register8::A => Registers { a: value, ..self },
            Register8::F => Registers { f: F8(value), ..self },
            Register8::SPHigh => Registers { sp: word(value, low_byte(self.sp)), ..self },
            Register8::SPLow => Registers { sp: word(high_byte(self.sp), value), ..self },
            Register8::PCHigh => Registers { pc: word(value, low_byte(self.pc)), ..self },
            Register8::PCLow => Registers { pc: word(high_byte(self.pc), value), ..self },
        }
    }

    /// The 16-bit register `reg`: its upper slot, then its lower slot.
    #[verifier::opaque]
    pub open spec fn r16(self, reg: Register16) -> u16 {
        word(self.r8(reg.high()), self.r8(reg.low()))
    }

    /// The register file with `value` in the 16-bit register `reg`: its upper
    /// byte in the upper slot, its lower byte in the lower slot, and every
    /// other slot as it was.
    #[verifier::opaque]
    pub open spec fn with_r16(self, reg: Register16, value: u16) -> Registers {
        self.with_r8(reg.high(), high_byte(value)).with_r8(reg.low(), low_byte(value))
    }

    /// The byte in the slot `value`.
    pub fn get_r8(&self, value: Register8) -> (r: u8)
        ensures
            r == self.r8(value),
    {
        match value {
            Register8::B => self.b,
            Register8::C => self.c,
            Register8::D => self.d,
            Register8::E => self.e,
            Register8::H => self.h,
            Register8::L => self.l,
            Register8::A => self.a,
            Register8::F => self.f.0,
            Register8::SPHigh => upper(self.sp),
            Register8::SPLow => lower(self.sp),
            Register8::PCHigh => upper(self.pc),
            Register8::PCLow => lower(self.pc),
        }
    }

    /// The word in the 16-bit register `value`: its upper slot above its lower
    /// slot.
    pub fn get_r16(&self, value: Register16) -> (r: u16)
        ensures
            r == self.r16(value),
    {
        reveal(Registers::r16);
        match value {
            Register16::BC => make_word(self.b, self.c),
            Register16::DE => make_word(self.d, self.e),
            Register16::HL => make_word(self.h, self.l),
            Register16::AF => make_word(self.a, self.f.0),
            Register16::SP => self.sp,
            Register16::PC => self.pc,
        }
    }

    /// Writes `value` to the slot `reg`.
    pub fn set_r8(&mut self, reg: Register8, value: u8)
        ensures
            *final(self) == old(self).with_r8(reg, value),
    {
        match reg {
            Register8::B => self.b = value,
            Register8::C => self.c = value,
            Register8::D => self.d = value,
            Register8::E => self.e = value,
            Register8::H => self.h = value,
            Register8::L => self.l = value,
            Register8::A => self.a = value,
            Register8::F => self.f = F8(value),
            Register8::SPHigh => self.sp = make_word(value, lower(self.sp)),
            Register8::SPLow => self.sp = make_word(upper(self.sp), value),
            Register8::PCHigh => self.pc = make_word(value, lower(self.pc)),
            Register8::PCLow => self.pc = make_word(upper(self.pc), value),
        }
    }

    /// Writes `value` to the 16-bit register `reg`: its upper byte to the upper
    /// slot, its lower byte to the lower slot.
    pub fn set_r16(&mut self, reg: Register16, value: u16)
        ensures
            *final(self) == old(self).with_r16(reg, value),
    {
        reveal(Registers::with_r16);
        match reg {
            Register16::BC => {
                self.b = upper(value);
                self.c = lower(value);
            },
            Register16::DE => {
                self.d = upper(value);
                self.e = lower(value);
            },
            Register16::HL => {
                self.h = upper(value);
                self.l = lower(value);
            },
            Register16::AF => {
                self.a = upper(value);
                self.f = F8(lower(value));
            },
            Register16::SP => self.sp = value,
            Register16::PC => self.pc = value,
        }
    }
}

impl Default for Registers {
    /// The register file at power-on: every slot is zero.
    fn default() -> (r: Registers)
        ensures
            r == Registers::zeroed(),
    {
        Registers { b: 0, c: 0, d: 0, e: 0, h: 0, l: 0, a: 0, f: F8(0), sp: 0, pc: 0 }
    }
}

impl Registers {
    /// The register file at power-on: every slot is zero.
    pub open spec fn zeroed() -> Registers {
        Registers { b: 0, c: 0, d: 0, e: 0, h: 0, l: 0, a: 0, f: F8(0), sp: 0, pc: 0 }
    }
}

/// A 16-bit register gives back the word that was written to it, whatever the
/// register file held before.
pub proof fn lemma_r16_round_trip(regs: Registers, reg: Register16, value: u16)
    ensures
        regs.with_r16(reg, value).r16(reg) == value,
{
    reveal(Registers::r16);
    reveal(Registers::with_r16);
}

/// A byte slot gives back the byte that was written to it.
pub proof fn lemma_r8_round_trip(regs: Registers, reg: Register8, value: u8)
    ensures
        regs.with_r8(reg, value).r8(reg) == value,
{
}

/// Writing the two halves of a 16-bit register, in either order, and reading
/// the register gives the word with the upper half's byte above the lower
/// half's byte.
pub proof fn lemma_halves_make_pair(regs: Registers, reg: Register16, high: u8, low: u8)
    ensures
        regs.with_r8(reg.high(), high).with_r8(reg.low(), low).r16(reg) == word(high, low),
        regs.with_r8(reg.low(), low).with_r8(reg.high(), high).r16(reg) == word(high, low),
        word(high, low) == high * 256 + low,
{
    reveal(Registers::r16);
    reveal(Registers::with_r16);
}

/// The stack pointer and the program counter read as 16-bit registers are the
/// words they hold, and a write to either as a 16-bit register replaces that
/// word and nothing else.
pub proof fn lemma_native_words(regs: Registers, value: u16)
    ensures
        regs.r16(Register16::SP) == regs.sp,
        regs.r16(Register16::PC) == regs.pc,
        regs.with_r16(Register16::SP, value) == (Registers { sp: value, ..regs }),
        regs.with_r16(Register16::PC, value) == (Registers { pc: value, ..regs }),
{
    reveal(Registers::r16);
    reveal(Registers::with_r16);
}

/// A write to a 16-bit register leaves every byte slot outside it as it was.
pub proof fn lemma_r16_frame(regs: Registers, reg: Register16, value: u16, other: Register8)
    requires
        other != reg.high(),
        other != reg.low(),
    ensures
        regs.with_r16(reg, value).r8(other) == regs.r8(other),
{
    reveal(Registers::r16);
    reveal(Registers::with_r16);
}

/// A 16-bit register, slot by slot: each pair is the word of its two byte
/// registers, upper byte first.
pub proof fn lemma_r16_fields(regs: Registers, reg: Register16)
    ensures
        regs.r16(reg) == match reg {
            Register16::BC => word(regs.b, regs.c),
            Register16::DE => word(regs.d, regs.e),
            Register16::HL => word(regs.h, regs.l),
            Register16::AF => word(regs.a, regs.f.0),
            Register16::SP => regs.sp,
            Register16::PC => regs.pc,
        },
{
    reveal(Registers::r16);
}

/// A write to a 16-bit register, slot by slot: it replaces the two byte
/// registers of the pair, or the stack pointer, or the program counter, and
/// nothing else.
pub proof fn lemma_with_r16_fields(regs: Registers, reg: Register16, value: u16)
    ensures
        regs.with_r16(reg, value) == match reg {
            Register16::BC => Registers { b: high_byte(value), c: low_byte(value), ..regs },
            Register16::DE => Registers { d: high_byte(value), e: low_byte(value), ..regs },
            Register16::HL => Registers { h: high_byte(value), l: low_byte(value), ..regs },
            Register16::AF => Registers { a: high_byte(value), f: F8(low_byte(value)), ..regs },
            Register16::SP => Registers { sp: value, ..regs },
            Register16::PC => Registers { pc: value, ..regs },
        },
{
    reveal(Registers::with_r16);
}

} // verus!
