//! The flag byte and the names of the registers.

use vstd::prelude::*;
use vstd::std_specs::convert::FromSpecImpl;
use vstd::std_specs::ops::BitAndSpecImpl;
use vstd::std_specs::ops::BitOrSpecImpl;
use vstd::std_specs::ops::BitXorSpecImpl;
use vstd::std_specs::ops::NotSpecImpl;

verus! {

/// One of the four processor flags. Each is one bit of the flag byte.
#[derive(Clone, Copy, Debug, PartialEq, Eq, Structural)]
pub enum Flags {
    Zero,
    Subtract,
    HalfCarry,
    Carry,
}

impl Flags {
    /// The bit of the flag byte that holds this flag.
    pub open spec fn mask(self) -> u8 {
        match self {
            Flags::Zero => 0x80,
            Flags::Subtract => 0x40,
            Flags::HalfCarry => 0x20,
            Flags::Carry => 0x10,
        }
    }

    /// Whether `value` is the bit of one of the four flags.
    pub open spec fn valid_u8(value: u8) -> bool {
        value == 0x80 || value == 0x40 || value == 0x20 || value == 0x10
    }

    /// The bit of the flag byte that holds this flag.
    pub fn bits(self) -> (r: u8)
        ensures
            r == self.mask(),
    {
        match self {
            Flags::Zero => 0x80,
            Flags::Subtract => 0x40,
            Flags::HalfCarry => 0x20,
            Flags::Carry => 0x10,
        }
    }

    /// The flag whose bit is `value`. Only the four flag bits name a flag.
    pub fn from_u8(value: u8) -> (r: Flags)
        requires
            Flags::valid_u8(value),
        ensures
            r.mask() == value,
    {
        if value == 0x80 {
            Flags::Zero
        } else if value == 0x40 {
            Flags::Subtract
        } else if value == 0x20 {
            Flags::HalfCarry
        } else {
            Flags::Carry
        }
    }
}

/// The flag byte. Its upper four bits are the flags Zero, Subtract, HalfCarry
/// and Carry, from the top down; its lower four bits carry no meaning.
#[derive(Clone, Copy, Debug, PartialEq, Eq, Structural)]
pub struct F8(pub u8);

impl F8 {
    /// Whether `flag` is set.
    pub open spec fn has(self, flag: Flags) -> bool {
        self.0 & flag.mask() != 0
    }

    /// This byte with `flag` set if `on` holds and cleared if not, and every
    /// other bit as it was.
    pub open spec fn with(self, flag: Flags, on: bool) -> F8 {
        if on {
            F8(self.0 | flag.mask())
        } else {
            F8(self.0 & !flag.mask())
        }
    }

    /// This byte with `flag` inverted, and every other bit as it was.
    pub open spec fn toggled(self, flag: Flags) -> F8 {
        F8(self.0 ^ flag.mask())
    }

    /// Whether the four bits without meaning are all zero.
    pub open spec fn is_clean(self) -> bool {
        self.0 & 0x0F == 0
    }

    /// Whether the flag `value` is set.
    pub fn is_set(&self, value: Flags) -> (r: bool)
        ensures
            r == self.has(value),
    {
        self.0 & value.bits() != 0
    }

    /// Sets the flag `value`.
    pub fn set(&mut self, value: Flags)
        ensures
            *final(self) == old(self).with(value, true),
    {
        self.0 = self.0 | value.bits();
    }

    /// Clears the flag `value`.
    pub fn unset(&mut self, value: Flags)
        ensures
            *final(self) == old(self).with(value, false),
    {
        self.0 = self.0 & !value.bits();
    }

    /// Inverts the flag `value`.
    pub fn flip(&mut self, value: Flags)
        ensures
            *final(self) == old(self).toggled(value),
    {
        self.0 = self.0 ^ value.bits();
    }

    /// Sets `flag` if `on` holds and clears it if not.
    pub fn assign(&mut self, flag: Flags, on: bool)
        ensures
            *final(self) == old(self).with(flag, on),
    {
        if on {
            self.set(flag);
        } else {
            self.unset(flag);
        }
    }

    /// Whether this byte and the mask `value` have a set bit in common.
    pub fn is_set_all(&self, value: F8) -> (r: bool)
        ensures
            r == (self.0 & value.0 != 0),
    {
        self.0 & value.0 != 0
    }

    /// Sets every bit that is set in the mask `value`.
    pub fn set_all(&mut self, value: F8)
        ensures
            final(self).0 == old(self).0 | value.0,
    {
        self.0 = self.0 | value.0;
    }

    /// Clears every bit that is set in the mask `value`.
    pub fn unset_all(&mut self, value: F8)
        ensures
            final(self).0 == old(self).0 & !value.0,
    {
        self.0 = self.0 & !value.0;
    }

    /// Inverts every bit that is set in the mask `value`.
    pub fn flip_all(&mut self, value: F8)
        ensures
            final(self).0 == old(self).0 ^ value.0,
    {
        self.0 = self.0 ^ value.0;
    }
}

/// The facts about single bits on which the laws of the flag byte rest: `m`
/// and `n` are the bits of two different flags.
proof fn lemma_flag_bits(f: u8, m: u8, n: u8)
    by (bit_vector)
    requires
        m == 0x80 || m == 0x40 || m == 0x20 || m == 0x10,
        n == 0x80 || n == 0x40 || n == 0x20 || n == 0x10,
        m != n,
    ensures
        (f | m) & m != 0,
        (f & !m) & m == 0,
        ((f ^ m) & m != 0) == (f & m == 0),
        (f | m) & n == f & n,
        (f & !m) & n == f & n,
        (f ^ m) & n == f & n,
        (f | m) & 0x0F == f & 0x0F,
        (f & !m) & 0x0F == f & 0x0F,
        (f ^ m) & 0x0F == f & 0x0F,
{
}

/// Writing a flag makes a test of that flag give what was written, leaves the
/// other three flags as they were, and leaves the four bits without meaning as
/// they were.
pub proof fn lemma_with(f: F8, flag: Flags, on: bool, other: Flags)
    ensures
        f.with(flag, on).has(flag) == on,
        other != flag ==> f.with(flag, on).has(other) == f.has(other),
        f.with(flag, on).0 & 0x0F == f.0 & 0x0F,
        f.is_clean() ==> f.with(flag, on).is_clean(),
{
    let n = if other != flag {
        other.mask()
    } else if flag == Flags::Zero {
        0x10u8
    } else {
        0x80u8
    };
    lemma_flag_bits(f.0, flag.mask(), n);
}

/// Inverting a flag inverts what a test of that flag gives, leaves the other
/// three flags as they were, and leaves the four bits without meaning as they
/// were.
pub proof fn lemma_toggled(f: F8, flag: Flags, other: Flags)
    ensures
        f.toggled(flag).has(flag) == !f.has(flag),
        other != flag ==> f.toggled(flag).has(other) == f.has(other),
        f.toggled(flag).0 & 0x0F == f.0 & 0x0F,
        f.is_clean() ==> f.toggled(flag).is_clean(),
{
    let n = if other != flag {
        other.mask()
    } else if flag == Flags::Zero {
        0x10u8
    } else {
        0x80u8
    };
    lemma_flag_bits(f.0, flag.mask(), n);
}

impl Default for F8 {
    /// The flag byte with no bit set.
    fn default() -> (r: F8)
        ensures
            r == F8(0),
    {
        F8(0)
    }
}

impl From<u8> for F8 {
    fn from(value: u8) -> (r: F8) {
        F8(value)
    }
}

impl FromSpecImpl<u8> for F8 {
    open spec fn obeys_from_spec() -> bool {
        true
    }

    open spec fn from_spec(value: u8) -> F8 {
        F8(value)
    }
}

impl From<F8> for u8 {
    fn from(value: F8) -> (r: u8) {
        value.0
    }
}

impl FromSpecImpl<F8> for u8 {
    open spec fn obeys_from_spec() -> bool {
        true
    }

    open spec fn from_spec(value: F8) -> u8 {
        value.0
    }
}

impl core::ops::BitOr for Flags {
    type Output = F8;

    fn bitor(self, rhs: Flags) -> (r: F8) {
        F8(self.bits() | rhs.bits())
    }
}

impl BitOrSpecImpl for Flags {
    open spec fn obeys_bitor_spec() -> bool {
        true
    }

    open spec fn bitor_req(self, rhs: Flags) -> bool {
        true
    }

    open spec fn bitor_spec(self, rhs: Flags) -> F8 {
        F8(self.mask() | rhs.mask())
    }
}

impl core::ops::BitAnd for Flags {
    type Output = F8;

    fn bitand(self, rhs: Flags) -> (r: F8) {
        F8(self.bits() & rhs.bits())
    }
}

impl BitAndSpecImpl for Flags {
    open spec fn obeys_bitand_spec() -> bool {
        true
    }

    open spec fn bitand_req(self, rhs: Flags) -> bool {
        true
    }

    open spec fn bitand_spec(self, rhs: Flags) -> F8 {
        F8(self.mask() & rhs.mask())
    }
}

impl core::ops::Not for Flags {
    type Output = F8;

    fn not(self) -> (r: F8) {
        F8(!self.bits())
    }
}

impl NotSpecImpl for Flags {
    open spec fn obeys_not_spec() -> bool {
        true
    }

    open spec fn not_req(self) -> bool {
        true
    }

    open spec fn not_spec(self) -> F8 {
        F8(!self.mask())
    }
}

impl core::ops::BitAnd for F8 {
    type Output = F8;

    fn bitand(self, rhs: F8) -> (r: F8) {
        F8(self.0 & rhs.0)
    }
}

impl BitAndSpecImpl for F8 {
    open spec fn obeys_bitand_spec() -> bool {
        true
    }

    open spec fn bitand_req(self, rhs: F8) -> bool {
        true
    }

    open spec fn bitand_spec(self, rhs: F8) -> F8 {
        F8(self.0 & rhs.0)
    }
}

impl core::ops::BitAnd<Flags> for F8 {
    type Output = F8;

    fn bitand(self, rhs: Flags) -> (r: F8) {
        F8(self.0 & rhs.bits())
    }
}

impl BitAndSpecImpl<Flags> for F8 {
    open spec fn obeys_bitand_spec() -> bool {
        true
    }

    open spec fn bitand_req(self, rhs: Flags) -> bool {
        true
    }

    open spec fn bitand_spec(self, rhs: Flags) -> F8 {
        F8(self.0 & rhs.mask())
    }
}

impl core::ops::BitOr for F8 {
    type Output = F8;

    fn bitor(self, rhs: F8) -> (r: F8) {
        F8(self.0 | rhs.0)
    }
}

impl BitOrSpecImpl for F8 {
    open spec fn obeys_bitor_spec() -> bool {
        true
    }

    open spec fn bitor_req(self, rhs: F8) -> bool {
        true
    }

    open spec fn bitor_spec(self, rhs: F8) -> F8 {
        F8(self.0 | rhs.0)
    }
}

impl core::ops::BitOr<Flags> for F8 {
    type Output = F8;

    fn bitor(self, rhs: Flags) -> (r: F8) {
        F8(self.0 | rhs.bits())
    }
}

impl BitOrSpecImpl<Flags> for F8 {
    open spec fn obeys_bitor_spec() -> bool {
        true
    }

    open spec fn bitor_req(self, rhs: Flags) -> bool {
        true
    }

    open spec fn bitor_spec(self, rhs: Flags) -> F8 {
        F8(self.0 | rhs.mask())
    }
}

impl core::ops::BitXor for F8 {
    type Output = F8;

    fn bitxor(self, rhs: F8) -> (r: F8) {
        F8(self.0 ^ rhs.0)
    }
}

impl BitXorSpecImpl for F8 {
    open spec fn obeys_bitxor_spec() -> bool {
        true
    }

    open spec fn bitxor_req(self, rhs: F8) -> bool {
        true
    }

    open spec fn bitxor_spec(self, rhs: F8) -> F8 {
        F8(self.0 ^ rhs.0)
    }
}

impl core::ops::BitXor<Flags> for F8 {
    type Output = F8;

    fn bitxor(self, rhs: Flags) -> (r: F8) {
        F8(self.0 ^ rhs.bits())
    }
}

impl BitXorSpecImpl<Flags> for F8 {
    open spec fn obeys_bitxor_spec() -> bool {
        true
    }

    open spec fn bitxor_req(self, rhs: Flags) -> bool {
        true
    }

    open spec fn bitxor_spec(self, rhs: Flags) -> F8 {
        F8(self.0 ^ rhs.mask())
    }
}

impl core::ops::Not for F8 {
    type Output = F8;

    fn not(self) -> (r: F8) {
        F8(!self.0)
    }
}

impl NotSpecImpl for F8 {
    open spec fn obeys_not_spec() -> bool {
        true
    }

    open spec fn not_req(self) -> bool {
        true
    }

    open spec fn not_spec(self) -> F8 {
        F8(!self.0)
    }
}

impl core::ops::BitAndAssign for F8 {
    fn bitand_assign(&mut self, rhs: F8)
        ensures
            final(self).0 == old(self).0 & rhs.0,
    {
        self.0 = self.0 & rhs.0;
    }
}

impl core::ops::BitAndAssign<Flags> for F8 {
    fn bitand_assign(&mut self, rhs: Flags)
        ensures
            final(self).0 == old(self).0 & rhs.mask(),
    {
        self.0 = self.0 & rhs.bits();
    }
}

impl core::ops::BitOrAssign for F8 {
    fn bitor_assign(&mut self, rhs: F8)
        ensures
            final(self).0 == old(self).0 | rhs.0,
    {
        self.0 = self.0 | rhs.0;
    }
}

impl core::ops::BitOrAssign<Flags> for F8 {
    fn bitor_assign(&mut self, rhs: Flags)
        ensures
            final(self).0 == old(self).0 | rhs.mask(),
    {
        self.0 = self.0 | rhs.bits();
    }
}

impl core::ops::BitXorAssign for F8 {
    fn bitxor_assign(&mut self, rhs: F8)
        ensures
            final(self).0 == old(self).0 ^ rhs.0,
    {
        self.0 = self.0 ^ rhs.0;
    }
}

impl core::ops::BitXorAssign<Flags> for F8 {
    fn bitxor_assign(&mut self, rhs: Flags)
        ensures
            final(self).0 == old(self).0 ^ rhs.mask(),
    {
        self.0 = self.0 ^ rhs.bits();
    }
}

/// The name of a one-byte slot of the register file: the eight byte registers,
/// then the halves of the stack pointer and of the program counter.
#[derive(Clone, Copy, Debug, PartialEq, Eq, Structural)]
pub enum Register8 {
    B,
    C,
    D,
    E,
    H,
    L,
    A,
    F,
    SPHigh,
    SPLow,
    PCHigh,
    PCLow,
}

impl Register8 {
    /// The place of this slot among the twelve, from 0.
    pub open spec fn index(self) -> u8 {
        match self {
            Register8::B => 0,
            Register8::C => 1,
            Register8::D => 2,
            Register8::E => 3,
            Register8::H => 4,
            Register8::L => 5,
            Register8::A => 6,
            Register8::F => 7,
            Register8::SPHigh => 8,
            Register8::SPLow => 9,
            Register8::PCHigh => 10,
            Register8::PCLow => 11,
        }
    }

    /// The slot at place `value`. There are twelve slots.
    pub fn from_u8(value: u8) -> (r: Register8)
        requires
            value <= 11,
        ensures
            r.index() == value,
    {
        match value {
            0 => Register8::B,
            1 => Register8::C,
            2 => Register8::D,
            3 => Register8::E,
            4 => Register8::H,
            5 => Register8::L,
            6 => Register8::A,
            7 => Register8::F,
            8 => Register8::SPHigh,
            9 => Register8::SPLow,
            10 => Register8::PCHigh,
            _ => Register8::PCLow,
        }
    }
}

/// The name of a 16-bit register: the four pairs of byte registers, the stack
/// pointer and the program counter.
#[derive(Clone, Copy, Debug, PartialEq, Eq, Structural)]
pub enum Register16 {
    BC,
    DE,
    HL,
    AF,
    SP,
    PC,
}

impl Register16 {
    /// The place of this register among the six, from 0.
    pub open spec fn index(self) -> u8 {
        match self {
            Register16::BC => 0,
            Register16::DE => 1,
            Register16::HL => 2,
            Register16::AF => 3,
            Register16::SP => 4,
            Register16::PC => 5,
        }
    }

    /// The slot that holds the upper byte of this register.
    pub open spec fn high(self) -> Register8 {
        match self {
            Register16::BC => Register8::B,
            Register16::DE => Register8::D,
            Register16::HL => Register8::H,
            Register16::AF => Register8::A,
            Register16::SP => Register8::SPHigh,
            Register16::PC => Register8::PCHigh,
        }
    }

    /// The slot that holds the lower byte of this register.
    pub open spec fn low(self) -> Register8 {
        match self {
            Register16::BC => Register8::C,
            Register16::DE => Register8::E,
            Register16::HL => Register8::L,
            Register16::AF => Register8::F,
            Register16::SP => Register8::SPLow,
            Register16::PC => Register8::PCLow,
        }
    }

    /// The register at place `value`. There are six registers.
    pub fn from_u8(value: u8) -> (r: Register16)
        requires
            value <= 5,
        ensures
            r.index() == value,
    {
        match value {
            0 => Register16::BC,
            1 => Register16::DE,
            2 => Register16::HL,
            3 => Register16::AF,
            4 => Register16::SP,
            _ => Register16::PC,
        }
    }
}

} // verus!
