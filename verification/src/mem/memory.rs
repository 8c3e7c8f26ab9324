//! The address space: 65,536 byte addresses, each in one of nine regions.
//!
//! | addresses       | region                                   |
//! |-----------------|------------------------------------------|
//! | 0x0000 - 0x3FFF | fixed ROM bank, read only                |
//! | 0x4000 - 0x7FFF | switchable ROM bank, read only           |
//! | 0x8000 - 0xDFFF | RAM                                      |
//! | 0xE000 - 0xFDFF | the RAM 0x2000 below, a second time      |
//! | 0xFE00 - 0xFE9F | sprite attribute table                   |
//! | 0xFEA0 - 0xFEFF | unusable                                 |
//! | 0xFF00 - 0xFF4B | I/O ports                                |
//! | 0xFF4C - 0xFF7F | unusable                                 |
//! | 0xFF80 - 0xFFFF | high RAM                                 |
//!
//! The model of the address space is a sequence of 65,536 bytes: what a read
//! at each address gives. An unusable address holds zero there and is never
//! read.

use crate::mem::cart::Cart;
use crate::word::add16;
use crate::word::high_byte;
use crate::word::low_byte;
use crate::word::lower;
use crate::word::make_word;
use crate::word::upper;
use crate::word::word;
use crate::word::wrap16;
use vstd::prelude::*;

verus! {

/// The address space of the console: the cartridge behind the two ROM regions,
/// and four blocks of storage behind the others.
pub struct Mem {
    cart: Cart,
    ram: [u8; 0x6000],
    sprite_oam: [u8; 0x00A0],
    io_ports: [u8; 0x004C],
    ram_stack: [u8; 0x0080],
}

/// Whether `addr` lies in one of the two unusable regions.
pub open spec fn unusable(addr: int) -> bool {
    0xFEA0 <= addr <= 0xFEFF || 0xFF4C <= addr <= 0xFF7F
}

/// Whether a read at `addr` is allowed: everywhere but in the unusable
/// regions.
pub open spec fn readable(addr: u16) -> bool {
    !unusable(addr as int)
}

/// Whether a write at `addr` is allowed: everywhere but in ROM and in the
/// unusable regions.
pub open spec fn writable(addr: u16) -> bool {
    addr >= 0x8000 && !unusable(addr as int)
}

/// Whether a read of a word at `addr` is allowed: a read at `addr` and one at
/// the next address, which after 0xFFFF is 0x0000.
pub open spec fn readable_word(addr: u16) -> bool {
    readable(addr) && readable(wrap16(addr + 1))
}

/// Whether a write of a word at `addr` is allowed: a write at `addr` and one
/// at the next address.
pub open spec fn writable_word(addr: u16) -> bool {
    writable(addr) && writable(wrap16(addr + 1))
}

/// The storage cell behind the address `addr`. An address of the second view
/// of RAM shares its cell with the address 0x2000 below it, and an address of
/// the switchable ROM bank, which shows the fixed bank, with the address
/// 0x4000 below it. Every other address has a cell of its own.
pub open spec fn cell(addr: int) -> int {
    if 0xE000 <= addr <= 0xFDFF {
        addr - 0x2000
    } else if 0x4000 <= addr <= 0x7FFF {
        addr - 0x4000
    } else {
        addr
    }
}

/// The address space `m` after a write of `value` at `addr`: the addresses
/// that share the cell of `addr` hold `value`, the others hold what they held.
pub open spec fn store(m: Seq<u8>, addr: u16, value: u8) -> Seq<u8> {
    Seq::new(
        m.len(),
        |i: int|
            if cell(i) == cell(addr as int) {
                value
            } else {
                m[i]
            },
    )
}

/// The word at `addr` in the address space `m`: its lower byte is at `addr`,
/// its upper byte at the next address, which after 0xFFFF is 0x0000.
pub open spec fn load16(m: Seq<u8>, addr: u16) -> u16 {
    word(m[wrap16(addr + 1) as int], m[addr as int])
}

/// The address space `m` after a write of the word `value` at `addr`: first
/// its lower byte at `addr`, then its upper byte at the next address.
pub open spec fn store16(m: Seq<u8>, addr: u16, value: u16) -> Seq<u8> {
    store(store(m, addr, low_byte(value)), wrap16(addr + 1), high_byte(value))
}

/// The address space at power-on over a cartridge image `rom`: both ROM
/// regions show the first 0x4000 bytes of the image, and every other address
/// holds zero.
pub open spec fn power_on(rom: Seq<u8>) -> Seq<u8> {
    Seq::new(
        0x1_0000,
        |i: int|
            if i < 0x8000 {
                rom[cell(i)]
            } else {
                0u8
            },
    )
}

/// Whether `m` can be the content of an address space: it has 65,536
/// addresses, addresses that share a cell hold the same byte, and the unusable
/// addresses hold zero.
pub open spec fn coherent(m: Seq<u8>) -> bool {
    &&& m.len() == 0x1_0000
    &&& forall|i: int| 0 <= i < 0x1_0000 ==> #[trigger] m[i] == m[cell(i)]
    &&& forall|i: int| unusable(i) ==> #[trigger] m[i] == 0
}

/// Whether a read at `addr` is allowed.
pub fn can_read(addr: u16) -> (r: bool)
    ensures
        r == readable(addr),
{
    !((0xFEA0 <= addr && addr <= 0xFEFF) || (0xFF4C <= addr && addr <= 0xFF7F))
}

/// Whether a write at `addr` is allowed.
pub fn can_write(addr: u16) -> (r: bool)
    ensures
        r == writable(addr),
{
    addr >= 0x8000 && can_read(addr)
}

/// Whether a read of a word at `addr` is allowed: a read at `addr` and one at
/// the next address.
pub fn can_read_word(addr: u16) -> (r: bool)
    ensures
        r == readable_word(addr),
{
    can_read(addr) && can_read(add16(addr, 1))
}

/// Whether a write of a word at `addr` is allowed: a write at `addr` and one
/// at the next address.
pub fn can_write_word(addr: u16) -> (r: bool)
    ensures
        r == writable_word(addr),
{
    can_write(addr) && can_write(add16(addr, 1))
}

impl Mem {
    /// The cartridge image fills the fixed ROM bank.
    #[verifier::type_invariant]
    spec fn holds_a_bank(&self) -> bool {
        self.cart.data@.len() >= 0x4000
    }

    /// What a read at the address `i` gives.
    spec fn at(&self, i: int) -> u8 {
        if 0xFF80 <= i {
            self.ram_stack@[i - 0xFF80]
        } else if 0xFF4C <= i {
            0u8
        } else if 0xFF00 <= i {
            self.io_ports@[i - 0xFF00]
        } else if 0xFEA0 <= i {
            0u8
        } else if 0xFE00 <= i {
            self.sprite_oam@[i - 0xFE00]
        } else if 0xE000 <= i {
            self.ram@[i - 0xA000]
        } else if 0x8000 <= i {
            self.ram@[i - 0x8000]
        } else if 0x4000 <= i {
            self.cart.data@[i - 0x4000]
        } else {
            self.cart.data@[i]
        }
    }

    /// The content of the address space: what a read at each address gives.
    pub closed spec fn view(&self) -> Seq<u8> {
        Seq::new(0x1_0000, |i: int| self.at(i))
    }

    /// The cartridge behind the two ROM regions.
    pub closed spec fn cart(&self) -> Cart {
        self.cart
    }

    /// The content of an address space is always coherent.
    pub proof fn lemma_coherent(&self)
        ensures
            coherent(self@),
    {
    }

    /// The address space at power-on over the cartridge `cart`, whose image
    /// holds at least one ROM bank.
    pub fn new(cart: Cart) -> (r: Mem)
        requires
            cart.data@.len() >= 0x4000,
        ensures
            r@ == power_on(cart.data@),
            r.cart() == cart,
            coherent(r@),
    {
        let r = Mem {
            cart,
            ram: [0u8; 0x6000],
            sprite_oam: [0u8; 0x00A0],
            io_ports: [0u8; 0x004C],
            ram_stack: [0u8; 0x0080],
        };
        assert(r@ =~= power_on(cart.data@));
        r
    }

    /// The byte at `index`.
    pub fn get_u8(&self, index: u16) -> (r: u8)
        requires
            readable(index),
        ensures
            r == self@[index as int],
    {
        proof {
            use_type_invariant(self);
        }
        if index >= 0xFF80 {
            self.ram_stack[(index - 0xFF80) as usize]
        } else if index >= 0xFF00 {
            self.io_ports[(index - 0xFF00) as usize]
        } else if index >= 0xFE00 {
            self.sprite_oam[(index - 0xFE00) as usize]
        } else if index >= 0xE000 {
            self.ram[(index - 0xA000) as usize]
        } else if index >= 0x8000 {
            self.ram[(index - 0x8000) as usize]
        } else if index >= 0x4000 {
            self.cart.data[(index - 0x4000) as usize]
        } else {
            self.cart.data[index as usize]
        }
    }

    /// The word at `index`: its lower byte is at `index`, its upper byte at
    /// the next address.
    pub fn get_u16(&self, index: u16) -> (r: u16)
        requires
            readable_word(index),
        ensures
            r == load16(self@, index),
    {
        let low = self.get_u8(index);
        let high = self.get_u8(add16(index, 1));
        make_word(high, low)
    }

    /// Writes `value` at `index`.
    pub fn set_u8(&mut self, index: u16, value: u8)
        requires
            writable(index),
        ensures
            final(self)@ == store(old(self)@, index, value),
            final(self).cart() == old(self).cart(),
            coherent(final(self)@),
    {
        proof {
            use_type_invariant(&*self);
        }
        if index >= 0xFF80 {
            self.ram_stack[(index - 0xFF80) as usize] = value;
        } else if index >= 0xFF00 {
            self.io_ports[(index - 0xFF00) as usize] = value;
        } else if index >= 0xFE00 {
            self.sprite_oam[(index - 0xFE00) as usize] = value;
        } else if index >= 0xE000 {
            self.ram[(index - 0xA000) as usize] = value;
        } else {
            self.ram[(index - 0x8000) as usize] = value;
        }
        assert(self@ =~= store(old(self)@, index, value));
    }

    /// Writes the word `value` at `index`: its lower byte at `index`, its
    /// upper byte at the next address.
    pub fn set_u16(&mut self, index: u16, value: u16)
        requires
            writable_word(index),
        ensures
            final(self)@ == store16(old(self)@, index, value),
            final(self).cart() == old(self).cart(),
            coherent(final(self)@),
    {
        self.set_u8(index, lower(value));
        self.set_u8(add16(index, 1), upper(value));
    }

    /// Asks for the ROM bank `bank` in the switchable region. This core has
    /// one fixed mapping, in which that region shows the first bank: the
    /// address space stays as it is.
    pub fn switch_rom_bank(&mut self, bank: usize)
        ensures
            final(self)@ == old(self)@,
            final(self).cart() == old(self).cart(),
    {
    }

    /// Asks for the RAM bank `bank`. This core has one fixed mapping, without
    /// banked RAM: the address space stays as it is.
    pub fn switch_ram_bank(&mut self, bank: usize)
        ensures
            final(self)@ == old(self)@,
            final(self).cart() == old(self).cart(),
    {
    }
}

/// The address space at power-on is coherent.
pub proof fn lemma_power_on(rom: Seq<u8>)
    ensures
        coherent(power_on(rom)),
{
}

/// A byte written at an address is the byte read at that address.
pub proof fn lemma_store_same(m: Seq<u8>, addr: u16, value: u8)
    requires
        m.len() == 0x1_0000,
    ensures
        store(m, addr, value)[addr as int] == value,
        store(m, addr, value).len() == 0x1_0000,
{
}

/// A write leaves every address with another cell as it was.
pub proof fn lemma_store_other(m: Seq<u8>, addr: u16, value: u8, other: u16)
    requires
        m.len() == 0x1_0000,
        cell(other as int) != cell(addr as int),
    ensures
        store(m, addr, value)[other as int] == m[other as int],
{
}

/// A write never changes what the two ROM regions show.
pub proof fn lemma_store_keeps_rom(m: Seq<u8>, addr: u16, value: u8, other: u16)
    requires
        m.len() == 0x1_0000,
        writable(addr),
        other < 0x8000,
    ensures
        store(m, addr, value)[other as int] == m[other as int],
{
}

/// A byte written at `addr` in RAM, from 0xC000 to 0xDDFF, is the byte read
/// at the address 0x2000 above, in the second view of RAM; and a byte written
/// there is the byte read at `addr`.
pub proof fn lemma_mirror(m: Seq<u8>, addr: u16, value: u8)
    requires
        m.len() == 0x1_0000,
        0xC000 <= addr <= 0xDDFF,
    ensures
        0xE000 <= addr + 0x2000 <= 0xFDFF,
        store(m, addr, value)[addr + 0x2000] == value,
        store(m, (addr + 0x2000) as u16, value)[addr as int] == value,
        store(m, addr, value) == store(m, (addr + 0x2000) as u16, value),
{
    assert(store(m, addr, value) =~= store(m, (addr + 0x2000) as u16, value));
}

/// A word written at an address is the word read at that address, wherever
/// the two bytes may be written.
pub proof fn lemma_store16_same(m: Seq<u8>, addr: u16, value: u16)
    requires
        m.len() == 0x1_0000,
        writable_word(addr),
    ensures
        load16(store16(m, addr, value), addr) == value,
        store16(m, addr, value).len() == 0x1_0000,
{
    reveal(wrap16);
}

/// A write keeps a coherent address space coherent.
pub proof fn lemma_store_coherent(m: Seq<u8>, addr: u16, value: u8)
    requires
        coherent(m),
        writable(addr),
    ensures
        coherent(store(m, addr, value)),
{
    let s = store(m, addr, value);
    assert forall|i: int| 0 <= i < 0x1_0000 implies #[trigger] s[i] == s[cell(i)] by {
        assert(m[i] == m[cell(i)]);
    }
}

} // verus!
