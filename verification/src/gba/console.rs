//! The console: a processor, an address space and a boot ROM, and the engine
//! that executes instructions on them.

use crate::cpu::proc::Cpu;
use crate::cpu::register::types::Flags;
use crate::cpu::register::types::Register16;
use crate::cpu::register::types::Register8;
use crate::cpu::register::types::F8;
use crate::cpu::register::lemma_r16_fields;
use crate::gba::laws::lemma_flags_stay_clean;
use crate::gba::laws::lemma_rom_is_constant;
use crate::gba::laws::rom_kept;
use crate::gba::machine::adjusted;
use crate::gba::machine::fitted;
use crate::gba::machine::lemma_stubs;
use crate::gba::machine::math_accumulator;
use crate::gba::machine::math_carry;
use crate::gba::machine::math_half_carry;
use crate::gba::machine::math_value;
use crate::gba::machine::math_flags;
use crate::gba::machine::State;
use crate::gba::opcode::types::JumpCondition;
use crate::gba::opcode::types::LoadDirection;
use crate::gba::opcode::types::MathOp;
use crate::gba::opcode::types::OpcodeIndirectRegister16;
use crate::gba::opcode::types::OpcodeRegister16;
use crate::gba::opcode::types::OpcodeRegister8;
use crate::gba::opcode::Opcode;
use crate::mem::cart::Cart;
use crate::mem::memory::can_read;
use crate::mem::memory::can_read_word;
use crate::mem::memory::can_write;
use crate::mem::memory::can_write_word;
use crate::mem::memory::power_on;
use crate::mem::memory::Mem;
use crate::word::add16;
use crate::word::add8;
use crate::word::displace;
use crate::word::sub16;
use crate::word::sub8;
use crate::word::upper;
use crate::word::wrap8;
use vstd::prelude::*;

verus! {

/// The console: its processor, its address space, and the boot ROM that its
/// driver lent it.
pub struct Gba<'a> {
    pub cpu: Cpu,
    pub mem: Mem,
    pub boot_rom: &'a [u8],
}

/// Why an opcode byte cannot be executed: it stands for no instruction, or
/// for one that the engine does not have.
#[derive(Debug)]
pub enum OpcodeExecuteError {
    UnsupportedOpcode(String),
    MissingOpcodeSupport(String),
}

/// The byte that the arithmetic operation `op` computes.
fn alu_value(op: MathOp, a: u8, v: u8, c: u8) -> (r: u8)
    requires
        c <= 1,
    ensures
        r == math_value(op, a, v, c as int),
{
    reveal(wrap8);
    match op {
        MathOp::Add => {
            let sum: u16 = a as u16 + v as u16;
            (sum % 256) as u8
        },
        MathOp::Adc => {
            let sum: u16 = a as u16 + v as u16 + c as u16;
            (sum % 256) as u8
        },
        MathOp::Sub | MathOp::Cp => {
            let diff: u16 = 0x100 + a as u16 - v as u16;
            (diff % 256) as u8
        },
        MathOp::Sbc => {
            let diff: u16 = 0x200 + a as u16 - v as u16 - c as u16;
            (diff % 256) as u8
        },
        MathOp::And => a & v,
        MathOp::Xor => a ^ v,
        MathOp::Or => a | v,
    }
}

/// Whether the arithmetic operation `op` carries or borrows.
fn alu_carry(op: MathOp, a: u8, v: u8, c: u8) -> (r: bool)
    requires
        c <= 1,
    ensures
        r == math_carry(op, a, v, c as int),
{
    match op {
        MathOp::Add => a as u16 + v as u16 > 0xFF,
        MathOp::Adc => a as u16 + v as u16 + c as u16 > 0xFF,
        MathOp::Sub | MathOp::Cp => a < v,
        MathOp::Sbc => (a as u16) < v as u16 + c as u16,
        _ => false,
    }
}

/// Whether the arithmetic operation `op` carries or borrows between its lower
/// and its upper four bits.
fn alu_half_carry(op: MathOp, a: u8, v: u8, c: u8) -> (r: bool)
    requires
        c <= 1,
    ensures
        r == math_half_carry(op, a, v, c as int),
{
    match op {
        MathOp::Add => a % 16 + v % 16 > 0xF,
        MathOp::Adc => a % 16 + v % 16 + c > 0xF,
        MathOp::Sub | MathOp::Cp => a % 16 < v % 16,
        MathOp::Sbc => a % 16 < v % 16 + c,
        MathOp::And => true,
        _ => false,
    }
}

/// The arithmetic unit: the accumulator and the flag byte after the operation
/// `op` on the accumulator `a` and the byte `v`, under the flag byte `f`.
pub fn alu(op: MathOp, a: u8, v: u8, f: F8) -> (r: (u8, F8))
    ensures
        r.0 == math_accumulator(op, a, v, f),
        r.1 == math_flags(op, a, v, f),
{
    let c: u8 = if f.is_set(Flags::Carry) {
        1
    } else {
        0
    };
    let value = alu_value(op, a, v, c);
    let subtract = match op {
        MathOp::Sub | MathOp::Sbc | MathOp::Cp => true,
        _ => false,
    };
    let mut flags = f;
    flags.assign(Flags::Subtract, subtract);
    flags.assign(Flags::Carry, alu_carry(op, a, v, c));
    flags.assign(Flags::Zero, value == 0);
    flags.assign(Flags::HalfCarry, alu_half_carry(op, a, v, c));
    let accumulator = match op {
        MathOp::Cp => a,
        _ => value,
    };
    (accumulator, flags)
}

impl<'a> Gba<'a> {
    /// The state of the machine: the processor, and what a read at each
    /// address gives.
    pub open spec fn view(&self) -> State {
        State { cpu: self.cpu, mem: self.mem@ }
    }

    /// Whether this console has the boot ROM and the cartridge of `before`.
    pub open spec fn keeps(&self, before: &Gba<'a>) -> bool {
        self.boot_rom@ == before.boot_rom@ && self.mem.cart() == before.mem.cart()
    }

    /// The console at power-on, with the cartridge `cart` in it, whose image
    /// holds at least one ROM bank: every register is zero, interrupts are
    /// disabled, and the address space shows the cartridge and zeroes.
    pub fn new(cart: Cart, boot_rom: &'a [u8]) -> (r: Gba<'a>)
        requires
            cart.data@.len() >= 0x4000,
        ensures
            r@ == (State { cpu: Cpu::power_on(), mem: power_on(cart.data@) }),
            r.boot_rom@ == boot_rom@,
            r.mem.cart() == cart,
    {
        Gba { cpu: Cpu::default(), mem: Mem::new(cart), boot_rom }
    }

    /// Reads the next byte of the program and moves the program counter past
    /// it. Gives the byte and the cycle it took.
    pub fn fetch_byte(&mut self) -> (r: (u8, usize))
        requires
            old(self)@.has_byte(),
        ensures
            r.0 == old(self)@.next_byte(),
            r.1 == 1,
            final(self)@ == old(self)@.skip(1),
            final(self).keeps(old(self)),
    {
        let byte = self.mem.get_u8(self.cpu.registers.pc);
        self.cpu.registers.pc = add16(self.cpu.registers.pc, 1);
        (byte, 1)
    }

    /// Reads the next two bytes of the program, lower byte first, and moves
    /// the program counter past them. Gives the word and the two cycles it
    /// took.
    pub fn fetch_word(&mut self) -> (r: (u16, usize))
        requires
            old(self)@.has_word(),
        ensures
            r.0 == old(self)@.next_word(),
            r.1 == 2,
            final(self)@ == old(self)@.skip(2),
            final(self).keeps(old(self)),
    {
        let word = self.mem.get_u16(self.cpu.registers.pc);
        self.cpu.registers.pc = add16(self.cpu.registers.pc, 2);
        (word, 2)
    }

    /// Reads the 8-bit operand `reg`. Gives the byte and the cycles it took:
    /// one for the memory operand, none for a register.
    pub fn fetch_register_8(&self, reg: OpcodeRegister8) -> (r: (u8, usize))
        requires
            self@.can_read_operand(reg),
        ensures
            r.0 == self@.operand(reg),
            r.1 == State::operand_cost(reg),
    {
        match reg {
            OpcodeRegister8::HL => (
                self.mem.get_u8(self.cpu.registers.get_r16(Register16::HL)),
                1,
            ),
            _ => (self.cpu.registers.get_r8(Register8::from(reg)), 0),
        }
    }

    /// Reads the 16-bit register `reg`. Gives the word and the cycle it took.
    pub fn fetch_register_16(&self, reg: OpcodeRegister16) -> (r: (u16, usize))
        ensures
            r.0 == self@.regs().r16(reg.register()),
            r.1 == 1,
    {
        (self.cpu.registers.get_r16(Register16::from(reg)), 1)
    }

    /// Writes `value` to the 8-bit operand `reg`. Gives the cycles it took:
    /// one for the memory operand, none for a register.
    pub fn store_register_8(&mut self, reg: OpcodeRegister8, value: u8) -> (r: usize)
        requires
            old(self)@.can_write_operand(reg),
        ensures
            r == State::operand_cost(reg),
            final(self)@ == old(self)@.with_operand(reg, value),
            final(self).keeps(old(self)),
    {
        match reg {
            OpcodeRegister8::HL => {
                let addr = self.cpu.registers.get_r16(Register16::HL);
                self.mem.set_u8(addr, value);
                1
            },
            _ => {
                self.cpu.registers.set_r8(Register8::from(reg), value);
                0
            },
        }
    }

    /// Pushes `val`: lowers the stack pointer by 2 and writes the word there,
    /// lower byte first. Gives the two cycles it took.
    pub fn push(&mut self, val: u16) -> (r: usize)
        requires
            old(self)@.can_push(),
        ensures
            r == 2,
            final(self)@ == old(self)@.pushed(val),
            final(self).keeps(old(self)),
    {
        self.cpu.registers.sp = sub16(self.cpu.registers.sp, 2);
        self.mem.set_u16(self.cpu.registers.sp, val);
        2
    }

    /// Pops a word: reads it at the stack pointer, lower byte first, and
    /// raises the stack pointer by 2. Gives the word and the two cycles it
    /// took.
    pub fn pop(&mut self) -> (r: (u16, usize))
        requires
            old(self)@.can_pop(),
        ensures
            r.0 == old(self)@.top(),
            r.1 == 2,
            final(self)@ == old(self)@.popped(),
            final(self).keeps(old(self)),
    {
        let val = self.mem.get_u16(self.cpu.registers.sp);
        self.cpu.registers.sp = add16(self.cpu.registers.sp, 2);
        (val, 2)
    }

    /// Whether a jump, call or return under `condition` is taken now.
    pub fn is_taken(&self, condition: JumpCondition) -> (r: bool)
        ensures
            r == self@.taken(condition),
    {
        match condition {
            JumpCondition::Always => true,
            JumpCondition::SetFlag(flag) => self.cpu.registers.f.is_set(flag),
            JumpCondition::UnsetFlag(flag) => !self.cpu.registers.f.is_set(flag),
        }
    }

    /// Jumps to `addr` if `condition` holds. Gives the cycles it took: one if
    /// the jump is taken, none if not.
    pub fn jump(&mut self, addr: u16, condition: JumpCondition) -> (r: usize)
        ensures
            r == (if old(self)@.taken(condition) {
                1int
            } else {
                0int
            }),
            final(self)@ == old(self)@.jumped(addr, condition),
            final(self).keeps(old(self)),
    {
        if self.is_taken(condition) {
            self.cpu.registers.pc = addr;
            1
        } else {
            0
        }
    }

    /// Calls `addr` if `condition` holds: pushes the program counter and
    /// jumps. Gives the cycles it took: three if the call is taken, none if
    /// not.
    pub fn call(&mut self, addr: u16, condition: JumpCondition) -> (r: usize)
        requires
            old(self)@.taken(condition) ==> old(self)@.can_push(),
        ensures
            r == (if old(self)@.taken(condition) {
                3int
            } else {
                0int
            }),
            final(self)@ == old(self)@.called(addr, condition),
            final(self).keeps(old(self)),
    {
        if self.is_taken(condition) {
            let cyc = self.push(self.cpu.registers.pc);
            self.cpu.registers.pc = addr;
            cyc + 1
        } else {
            0
        }
    }

    /// Moves a byte between the accumulator and the address `addr`.
    fn transfer(&mut self, addr: u16, direction: LoadDirection)
        requires
            State::can_transfer(addr, direction),
        ensures
            final(self)@ == old(self)@.transferred(addr, direction),
            final(self).keeps(old(self)),
    {
        match direction {
            LoadDirection::Memory => {
                self.mem.set_u8(addr, self.cpu.registers.a);
            },
            LoadDirection::Accumulator => {
                self.cpu.registers.a = self.mem.get_u8(addr);
            },
        }
    }

    /// Applies the arithmetic operation `op` to the accumulator and `v`.
    fn compute(&mut self, op: MathOp, v: u8)
        ensures
            final(self)@ == old(self)@.computed(op, v),
            final(self).keeps(old(self)),
    {
        let (a, f) = alu(op, self.cpu.registers.a, v, self.cpu.registers.f);
        self.cpu.registers.a = a;
        self.cpu.registers.f = f;
    }

    /// Writes `value` to the 16-bit register `reg`, without the four bits of
    /// the flag byte that carry no meaning.
    fn load_pair(&mut self, reg: OpcodeRegister16, value: u16)
        ensures
            final(self)@ == old(self)@.with_r16(reg.register(), fitted(reg, value)),
            final(self).keeps(old(self)),
    {
        match reg {
            OpcodeRegister16::AF => {
                self.cpu.registers.set_r16(Register16::AF, value - value % 16);
            },
            _ => {
                self.cpu.registers.set_r16(Register16::from(reg), value);
            },
        }
    }

    /// Returns if `condition` holds: pops the program counter. Gives the
    /// cycles it took: four if the return is taken, one if not.
    fn give_back(&mut self, condition: JumpCondition) -> (r: usize)
        requires
            old(self)@.taken(condition) ==> old(self)@.can_pop(),
        ensures
            r == (if old(self)@.taken(condition) {
                4int
            } else {
                1int
            }),
            final(self)@ == old(self)@.returned(condition),
            final(self).keeps(old(self)),
    {
        if self.is_taken(condition) {
            let (addr, _) = self.pop();
            self.cpu.registers.pc = addr;
            4
        } else {
            1
        }
    }

    /// Whether this console is what the instruction `op` makes of `before`,
    /// in `cycles` cycles.
    pub open spec fn did(&self, before: &Gba<'a>, op: Opcode, cycles: usize) -> bool {
        &&& cycles == before@.cost(op)
        &&& self@ == before@.after(op)
        &&& self.keeps(before)
    }

    /// Copies the 8-bit operand `src` to the 8-bit operand `dst`.
    fn load_r8(&mut self, dst: OpcodeRegister8, src: OpcodeRegister8) -> (cycles: usize)
        requires
            old(self)@.runs(Opcode::LoadR8(dst, src)),
        ensures
            final(self).did(old(self), Opcode::LoadR8(dst, src), cycles),
    {
        proof {
            reveal(State::runs);
            reveal(State::after);
            reveal(State::cost);
        }
        let (val, cyc) = self.fetch_register_8(src);
        1 + cyc + self.store_register_8(dst, val)
    }

    /// Copies the next byte of the program to the 8-bit operand `dst`.
    fn load_imm8(&mut self, dst: OpcodeRegister8) -> (cycles: usize)
        requires
            old(self)@.runs(Opcode::LoadImm8(dst)),
        ensures
            final(self).did(old(self), Opcode::LoadImm8(dst), cycles),
    {
        proof {
            reveal(State::runs);
            reveal(State::after);
            reveal(State::cost);
        }
        let (val, cyc) = self.fetch_byte();
        proof {
            lemma_r16_fields(old(self).cpu.registers, Register16::HL);
            lemma_r16_fields(self.cpu.registers, Register16::HL);
        }
        1 + cyc + self.store_register_8(dst, val)
    }

    /// Moves a byte between the accumulator and memory at the address in the
    /// register pair `src`, which then moves HL where it says so.
    fn load_ind_r16(&mut self, src: OpcodeIndirectRegister16, direction: LoadDirection) -> (cycles:
        usize)
        requires
            old(self)@.runs(Opcode::LoadIndR16(src, direction)),
        ensures
            final(self).did(old(self), Opcode::LoadIndR16(src, direction), cycles),
    {
        proof {
            reveal(State::runs);
            reveal(State::after);
            reveal(State::cost);
        }
        let addr = self.cpu.registers.get_r16(Register16::from(src));
        match src {
            OpcodeIndirectRegister16::HLInc => {
                self.cpu.registers.set_r16(Register16::HL, add16(addr, 1));
            },
            OpcodeIndirectRegister16::HLDec => {
                self.cpu.registers.set_r16(Register16::HL, sub16(addr, 1));
            },
            _ => {},
        }
        self.transfer(addr, direction);
        3
    }

    /// Moves a byte between the accumulator and the port that the next byte of
    /// the program names.
    fn load_ind_off_imm8(&mut self, direction: LoadDirection) -> (cycles: usize)
        requires
            old(self)@.runs(Opcode::LoadIndOffImm8(direction)),
        ensures
            final(self).did(old(self), Opcode::LoadIndOffImm8(direction), cycles),
    {
        proof {
            reveal(State::runs);
            reveal(State::after);
            reveal(State::cost);
        }
        let (off, cyc) = self.fetch_byte();
        let addr: u16 = 0xFF00 + off as u16;
        self.transfer(addr, direction);
        1 + cyc + 1
    }

    /// Moves a byte between the accumulator and the port that register C names.
    fn load_ind_off_reg_c(&mut self, direction: LoadDirection) -> (cycles: usize)
        requires
            old(self)@.runs(Opcode::LoadIndOffRegC(direction)),
        ensures
            final(self).did(old(self), Opcode::LoadIndOffRegC(direction), cycles),
    {
        proof {
            reveal(State::runs);
            reveal(State::after);
            reveal(State::cost);
        }
        let addr: u16 = 0xFF00 + self.cpu.registers.c as u16;
        self.transfer(addr, direction);
        2
    }

    /// Moves a byte between the accumulator and memory at the address in the
    /// next two bytes of the program.
    fn load_ind_imm16(&mut self, direction: LoadDirection) -> (cycles: usize)
        requires
            old(self)@.runs(Opcode::LoadIndImm16(direction)),
        ensures
            final(self).did(old(self), Opcode::LoadIndImm16(direction), cycles),
    {
        proof {
            reveal(State::runs);
            reveal(State::after);
            reveal(State::cost);
        }
        let (addr, cyc) = self.fetch_word();
        self.transfer(addr, direction);
        1 + cyc + 1
    }

    /// Copies the next two bytes of the program to the 16-bit register `dst`.
    fn load_imm16(&mut self, dst: OpcodeRegister16) -> (cycles: usize)
        requires
            old(self)@.runs(Opcode::LoadImm16(dst)),
        ensures
            final(self).did(old(self), Opcode::LoadImm16(dst), cycles),
    {
        proof {
            reveal(State::runs);
            reveal(State::after);
            reveal(State::cost);
        }
        let (val, cyc) = self.fetch_word();
        self.load_pair(dst, val);
        1 + cyc
    }

    /// Writes the stack pointer to memory at the address in the next two bytes
    /// of the program.
    fn load_ind_imm16_sp(&mut self) -> (cycles: usize)
        requires
            old(self)@.runs(Opcode::LoadIndImm16SP),
        ensures
            final(self).did(old(self), Opcode::LoadIndImm16SP, cycles),
    {
        proof {
            reveal(State::runs);
            reveal(State::after);
            reveal(State::cost);
        }
        let (addr, cyc) = self.fetch_word();
        self.mem.set_u16(addr, self.cpu.registers.sp);
        1 + cyc + 2
    }

    /// Pushes the 16-bit register `src`.
    fn push_r16(&mut self, src: OpcodeRegister16) -> (cycles: usize)
        requires
            old(self)@.runs(Opcode::PushR16(src)),
        ensures
            final(self).did(old(self), Opcode::PushR16(src), cycles),
    {
        proof {
            reveal(State::runs);
            reveal(State::after);
            reveal(State::cost);
        }
        let (val, cyc) = self.fetch_register_16(src);
        1 + cyc + self.push(val)
    }

    /// Pops a word into the 16-bit register `dst`.
    fn pop_r16(&mut self, dst: OpcodeRegister16) -> (cycles: usize)
        requires
            old(self)@.runs(Opcode::PopR16(dst)),
        ensures
            final(self).did(old(self), Opcode::PopR16(dst), cycles),
    {
        proof {
            reveal(State::runs);
            reveal(State::after);
            reveal(State::cost);
        }
        let (val, cyc) = self.pop();
        self.load_pair(dst, val);
        1 + cyc
    }

    /// Adds the next byte of the program to the stack pointer, reads the word
    /// at that address, and sets the flags by the sum.
    fn load_hl_off_sp(&mut self) -> (cycles: usize)
        requires
            old(self)@.runs(Opcode::LoadHLOffSp),
        ensures
            final(self).did(old(self), Opcode::LoadHLOffSp, cycles),
    {
        proof {
            reveal(State::runs);
            reveal(State::after);
            reveal(State::cost);
        }
        let (off, cyc) = self.fetch_byte();
        let sp = self.cpu.registers.sp;
        let addr = add16(sp, off as u16);
        let _ = self.mem.get_u16(addr);
        self.cpu.registers.f.unset(Flags::Zero);
        self.cpu.registers.f.unset(Flags::Subtract);
        if sp as u32 + off as u32 > 0xFFFF {
            self.cpu.registers.f.set(Flags::Carry);
        } else {
            self.cpu.registers.f = self.cpu.registers.f & Flags::Carry;
        }
        self.cpu.registers.f.assign(Flags::HalfCarry, sp % 16 + (off % 16) as u16 > 0xF);
        1 + cyc + 1
    }

    /// Applies the arithmetic operation `op` to the accumulator and the 8-bit
    /// operand `src`.
    fn math_r8(&mut self, op: MathOp, src: OpcodeRegister8) -> (cycles: usize)
        requires
            old(self)@.runs(Opcode::MathR8(op, src)),
        ensures
            final(self).did(old(self), Opcode::MathR8(op, src), cycles),
    {
        proof {
            reveal(State::runs);
            reveal(State::after);
            reveal(State::cost);
        }
        let (val, cyc) = self.fetch_register_8(src);
        self.compute(op, val);
        1 + cyc
    }

    /// Applies the arithmetic operation `op` to the accumulator and the next
    /// byte of the program.
    fn math_imm8(&mut self, op: MathOp) -> (cycles: usize)
        requires
            old(self)@.runs(Opcode::MathImm8(op)),
        ensures
            final(self).did(old(self), Opcode::MathImm8(op), cycles),
    {
        proof {
            reveal(State::runs);
            reveal(State::after);
            reveal(State::cost);
        }
        let (val, cyc) = self.fetch_byte();
        self.compute(op, val);
        1 + cyc
    }

    /// Adds 1 to the 8-bit operand `reg`.
    fn inc_r8(&mut self, reg: OpcodeRegister8) -> (cycles: usize)
        requires
            old(self)@.runs(Opcode::IncR8(reg)),
        ensures
            final(self).did(old(self), Opcode::IncR8(reg), cycles),
    {
        proof {
            reveal(State::runs);
            reveal(State::after);
            reveal(State::cost);
        }
        let (val, cyc) = self.fetch_register_8(reg);
        self.cpu.registers.f.unset(Flags::Subtract);
        self.cpu.registers.f.assign(Flags::Zero, val == 0);
        self.cpu.registers.f.assign(Flags::HalfCarry, val % 16 >= 8);
        proof {
            lemma_r16_fields(old(self).cpu.registers, Register16::HL);
            lemma_r16_fields(self.cpu.registers, Register16::HL);
        }
        let more = self.store_register_8(reg, add8(val, 1));
        1 + cyc + more
    }

    /// Takes 1 from the 8-bit operand `reg`.
    fn dec_r8(&mut self, reg: OpcodeRegister8) -> (cycles: usize)
        requires
            old(self)@.runs(Opcode::DecR8(reg)),
        ensures
            final(self).did(old(self), Opcode::DecR8(reg), cycles),
    {
        proof {
            reveal(State::runs);
            reveal(State::after);
            reveal(State::cost);
        }
        let (val, cyc) = self.fetch_register_8(reg);
        self.cpu.registers.f.unset(Flags::Subtract);
        self.cpu.registers.f.assign(Flags::Zero, val == 0);
        self.cpu.registers.f.assign(Flags::HalfCarry, val % 16 != 1);
        proof {
            lemma_r16_fields(old(self).cpu.registers, Register16::HL);
            lemma_r16_fields(self.cpu.registers, Register16::HL);
        }
        let more = self.store_register_8(reg, sub8(val, 1));
        1 + cyc + more
    }

    /// Adds 1 to the 16-bit register `reg` if `up` holds, and takes 1 from it if
    /// not.
    fn step_r16(&mut self, reg: OpcodeRegister16, up: bool) -> (cycles: usize)
        ensures
            up ==> final(self).did(old(self), Opcode::IncR16(reg), cycles),
            !up ==> final(self).did(old(self), Opcode::DecR16(reg), cycles),
    {
        proof {
            reveal(State::runs);
            reveal(State::after);
            reveal(State::cost);
        }
        let (val, cyc) = self.fetch_register_16(reg);
        if up {
            self.load_pair(reg, add16(val, 1));
        } else {
            self.load_pair(reg, sub16(val, 1));
        }
        1 + cyc
    }

    /// Adds the 16-bit register `src` to HL.
    fn add_r16(&mut self, src: OpcodeRegister16) -> (cycles: usize)
        ensures
            final(self).did(old(self), Opcode::AddR16(src), cycles),
    {
        proof {
            reveal(State::runs);
            reveal(State::after);
            reveal(State::cost);
        }
        let hl = self.cpu.registers.get_r16(Register16::HL);
        let (val, cyc) = self.fetch_register_16(src);
        self.cpu.registers.f.unset(Flags::Subtract);
        self.cpu.registers.f.assign(Flags::Carry, hl as u32 + val as u32 > 0xFFFF);
        self.cpu.registers.f.assign(Flags::HalfCarry, upper(hl) % 16 + upper(val) % 16 > 0xF);
        self.cpu.registers.set_r16(Register16::HL, add16(hl, val));
        1 + cyc
    }

    /// Moves the stack pointer by the next byte of the program, read as a
    /// signed displacement.
    fn add_sp_imm8(&mut self) -> (cycles: usize)
        requires
            old(self)@.runs(Opcode::AddSPImm8),
        ensures
            final(self).did(old(self), Opcode::AddSPImm8, cycles),
    {
        proof {
            reveal(State::runs);
            reveal(State::after);
            reveal(State::cost);
        }
        let (off, cyc) = self.fetch_byte();
        let sp = self.cpu.registers.sp;
        let over = if off < 0x80 {
            sp as u32 + off as u32 > 0xFFFF
        } else {
            sp < 0x100 - off as u16
        };
        let moved = displace(sp, off);
        self.cpu.registers.f.unset(Flags::Subtract);
        self.cpu.registers.f.assign(Flags::Zero, over);
        self.cpu.registers.f.assign(Flags::HalfCarry, moved % 16 + (off % 16) as u16 == 16);
        self.cpu.registers.sp = moved;
        1 + cyc
    }

    /// Moves the accumulator one bit up if `left` holds and one bit down if
    /// not. The bit that enters is the carry flag if `through_carry` holds and
    /// zero if not. Clears every flag.
    fn rotate(&mut self, left: bool, through_carry: bool) -> (cycles: usize)
        ensures
            left && !through_carry ==> final(self).did(
                old(self),
                Opcode::RotateLeftCircularAccumulator,
                cycles,
            ),
            left && through_carry ==> final(self).did(
                old(self),
                Opcode::RotateLeftAccumulator,
                cycles,
            ),
            !left && !through_carry ==> final(self).did(
                old(self),
                Opcode::RotateRightCircularAccumulator,
                cycles,
            ),
            !left && through_carry ==> final(self).did(
                old(self),
                Opcode::RotateRightAccumulator,
                cycles,
            ),
    {
        proof {
            reveal(State::runs);
            reveal(State::after);
            reveal(State::cost);
        }
        let carry: u8 = if through_carry && self.cpu.registers.f.is_set(Flags::Carry) {
            1
        } else {
            0
        };
        if left {
            self.cpu.registers.a = shift_left(self.cpu.registers.a, carry);
        } else {
            self.cpu.registers.a = shift_right(self.cpu.registers.a, carry);
        }
        self.cpu.registers.f = F8::from(0);
        1
    }

    /// Inverts the carry flag if `complement` holds, and sets it if not.
    fn flag_carry(&mut self, complement: bool) -> (cycles: usize)
        ensures
            complement ==> final(self).did(old(self), Opcode::ComplementCarryFlag, cycles),
            !complement ==> final(self).did(old(self), Opcode::SetCarryFlag, cycles),
    {
        proof {
            reveal(State::runs);
            reveal(State::after);
            reveal(State::cost);
        }
        if complement {
            self.cpu.registers.f.flip(Flags::Carry);
        } else {
            self.cpu.registers.f.set(Flags::Carry);
        }
        self.cpu.registers.f.unset(Flags::Subtract);
        self.cpu.registers.f.unset(Flags::HalfCarry);
        1
    }

    /// Inverts every bit of the accumulator.
    fn complement_accumulator(&mut self) -> (cycles: usize)
        ensures
            final(self).did(old(self), Opcode::ComplementAccumulator, cycles),
    {
        proof {
            reveal(State::runs);
            reveal(State::after);
            reveal(State::cost);
        }
        self.cpu.registers.a = !self.cpu.registers.a;
        self.cpu.registers.f.set(Flags::Subtract);
        self.cpu.registers.f.set(Flags::HalfCarry);
        1
    }

    /// Jumps to the address in the next two bytes of the program, if
    /// `condition` holds.
    fn jump_imm16(&mut self, condition: JumpCondition) -> (cycles: usize)
        requires
            old(self)@.runs(Opcode::JumpImm16(condition)),
        ensures
            final(self).did(old(self), Opcode::JumpImm16(condition), cycles),
    {
        proof {
            reveal(State::runs);
            reveal(State::after);
            reveal(State::cost);
        }
        let (addr, cyc) = self.fetch_word();
        1 + cyc + self.jump(addr, condition)
    }

    /// Jumps by the next byte of the program, read as a signed displacement,
    /// if `condition` holds.
    fn jump_off_imm8(&mut self, condition: JumpCondition) -> (cycles: usize)
        requires
            old(self)@.runs(Opcode::JumpOffImm8(condition)),
        ensures
            final(self).did(old(self), Opcode::JumpOffImm8(condition), cycles),
    {
        proof {
            reveal(State::runs);
            reveal(State::after);
            reveal(State::cost);
        }
        let (off, cyc) = self.fetch_byte();
        let addr = displace(self.cpu.registers.pc, off);
        1 + cyc + self.jump(addr, condition)
    }

    /// Calls the address in the next two bytes of the program, if `condition`
    /// holds.
    fn call_imm16(&mut self, condition: JumpCondition) -> (cycles: usize)
        requires
            old(self)@.runs(Opcode::CallImm16(condition)),
        ensures
            final(self).did(old(self), Opcode::CallImm16(condition), cycles),
    {
        proof {
            reveal(State::runs);
            reveal(State::after);
            reveal(State::cost);
        }
        let (addr, cyc) = self.fetch_word();
        1 + cyc + self.call(addr, condition)
    }

    /// Returns to the address on top of the stack and enables interrupts.
    fn return_interrupt(&mut self) -> (cycles: usize)
        requires
            old(self)@.runs(Opcode::ReturnInterupt),
        ensures
            final(self).did(old(self), Opcode::ReturnInterupt, cycles),
    {
        proof {
            reveal(State::runs);
            reveal(State::after);
            reveal(State::cost);
        }
        let (addr, cyc) = self.pop();
        self.cpu.registers.pc = addr;
        self.cpu.ime = 1;
        1 + cyc + 1
    }

    /// Calls the address `vector`.
    fn restart(&mut self, vector: u8) -> (cycles: usize)
        requires
            old(self)@.runs(Opcode::Restart(vector)),
        ensures
            final(self).did(old(self), Opcode::Restart(vector), cycles),
    {
        proof {
            reveal(State::runs);
            reveal(State::after);
            reveal(State::cost);
        }
        let cyc = self.push(self.cpu.registers.pc);
        self.cpu.registers.pc = vector as u16;
        1 + 1 + cyc
    }

    /// Copies HL to the stack pointer.
    fn load_sp_hl(&mut self) -> (cycles: usize)
        ensures
            final(self).did(old(self), Opcode::LoadSPHL, cycles),
    {
        proof {
            reveal(State::runs);
            reveal(State::after);
            reveal(State::cost);
        }
        self.cpu.registers.sp = self.cpu.registers.get_r16(Register16::HL);
        2
    }

    /// Jumps to the address in HL.
    fn jump_hl(&mut self) -> (cycles: usize)
        ensures
            final(self).did(old(self), Opcode::JumpHL, cycles),
    {
        proof {
            reveal(State::runs);
            reveal(State::after);
            reveal(State::cost);
        }
        self.cpu.registers.pc = self.cpu.registers.get_r16(Register16::HL);
        1
    }

    /// Returns to the address on top of the stack, if `condition` holds.
    fn return_from(&mut self, condition: JumpCondition) -> (cycles: usize)
        requires
            old(self)@.runs(Opcode::Return(condition)),
        ensures
            final(self).did(old(self), Opcode::Return(condition), cycles),
    {
        proof {
            reveal(State::runs);
            reveal(State::after);
            reveal(State::cost);
        }
        1 + self.give_back(condition)
    }

    /// Enables interrupts if `on` holds, and disables them if not.
    fn switch_interrupts(&mut self, on: bool) -> (cycles: usize)
        ensures
            on ==> final(self).did(old(self), Opcode::EnableInterrupts, cycles),
            !on ==> final(self).did(old(self), Opcode::DisableInterrupts, cycles),
    {
        proof {
            reveal(State::runs);
            reveal(State::after);
            reveal(State::cost);
        }
        self.cpu.ime = if on {
            1
        } else {
            0
        };
        1
    }

    /// Executes the instruction `opcode` and gives the cycles it took. The
    /// two ROM regions read afterwards as they read before, and the four bits
    /// without meaning of the flag byte are zero afterwards if they were
    /// before.
    pub fn execute(&mut self, opcode: Opcode) -> (cycles: usize)
        requires
            old(self)@.runs(opcode),
        ensures
            cycles == old(self)@.cost(opcode),
            final(self)@ == old(self)@.after(opcode),
            final(self).keeps(old(self)),
            rom_kept(old(self)@.mem, final(self)@.mem),
            old(self)@.regs().f.is_clean() ==> final(self)@.regs().f.is_clean(),
    {
        proof {
            self.mem.lemma_coherent();
            lemma_rom_is_constant(self@, opcode);
            if self@.regs().f.is_clean() {
                lemma_flags_stay_clean(self@, opcode);
            }
        }
        match opcode {
            Opcode::LoadR8(dst, src) => self.load_r8(dst, src),
            Opcode::LoadImm8(dst) => self.load_imm8(dst),
            Opcode::LoadIndR16(src, direction) => self.load_ind_r16(src, direction),
            Opcode::LoadIndOffImm8(direction) => self.load_ind_off_imm8(direction),
            Opcode::LoadIndOffRegC(direction) => self.load_ind_off_reg_c(direction),
            Opcode::LoadIndImm16(direction) => self.load_ind_imm16(direction),
            Opcode::LoadImm16(dst) => self.load_imm16(dst),
            Opcode::LoadIndImm16SP => self.load_ind_imm16_sp(),
            Opcode::LoadSPHL => self.load_sp_hl(),
            Opcode::PushR16(src) => self.push_r16(src),
            Opcode::PopR16(dst) => self.pop_r16(dst),
            Opcode::LoadHLOffSp => self.load_hl_off_sp(),
            _ => self.execute_arithmetic(opcode),
        }
    }

    /// Executes `opcode` where it is no load: an arithmetic instruction, or
    /// one of those that follow them.
    fn execute_arithmetic(&mut self, opcode: Opcode) -> (cycles: usize)
        requires
            old(self)@.runs(opcode),
            !opcode.is_load(),
        ensures
            final(self).did(old(self), opcode, cycles),
    {
        match opcode {
            Opcode::MathR8(op, src) => self.math_r8(op, src),
            Opcode::MathImm8(op) => self.math_imm8(op),
            Opcode::IncR8(reg) => self.inc_r8(reg),
            Opcode::DecR8(reg) => self.dec_r8(reg),
            Opcode::ComplementCarryFlag => self.flag_carry(true),
            Opcode::SetCarryFlag => self.flag_carry(false),
            Opcode::DecimalAdjustAccumulator => self.adjust(),
            Opcode::ComplementAccumulator => self.complement_accumulator(),
            Opcode::IncR16(reg) => self.step_r16(reg, true),
            Opcode::DecR16(reg) => self.step_r16(reg, false),
            Opcode::AddR16(src) => self.add_r16(src),
            Opcode::AddSPImm8 => self.add_sp_imm8(),
            Opcode::RotateLeftCircularAccumulator => self.rotate(true, false),
            Opcode::RotateLeftAccumulator => self.rotate(true, true),
            Opcode::RotateRightCircularAccumulator => self.rotate(false, false),
            Opcode::RotateRightAccumulator => self.rotate(false, true),
            _ => self.execute_control(opcode),
        }
    }

    /// Executes `opcode` where it is neither a load nor an arithmetic
    /// instruction: one that moves the program counter or switches
    /// interrupts, or the one that does nothing.
    fn execute_control(&mut self, opcode: Opcode) -> (cycles: usize)
        requires
            old(self)@.runs(opcode),
            !opcode.is_load(),
            !opcode.is_arithmetic(),
        ensures
            final(self).did(old(self), opcode, cycles),
    {
        match opcode {
            Opcode::JumpImm16(condition) => self.jump_imm16(condition),
            Opcode::JumpHL => self.jump_hl(),
            Opcode::JumpOffImm8(condition) => self.jump_off_imm8(condition),
            Opcode::CallImm16(condition) => self.call_imm16(condition),
            Opcode::Return(condition) => self.return_from(condition),
            Opcode::ReturnInterupt => self.return_interrupt(),
            Opcode::Restart(vector) => self.restart(vector),
            Opcode::DisableInterrupts => self.switch_interrupts(false),
            Opcode::EnableInterrupts => self.switch_interrupts(true),
            Opcode::Noop => self.noop(),
            _ => {
                proof {
                    lemma_stubs(self@, opcode);
                }
                self.noop()
            },
        }
    }

    /// Does nothing, in one cycle.
    fn noop(&mut self) -> (cycles: usize)
        ensures
            final(self).did(old(self), Opcode::Noop, cycles),
    {
        proof {
            reveal(State::after);
            reveal(State::cost);
        }
        1
    }

    /// Adjusts the accumulator to two decimal digits after an addition or a
    /// subtraction of two such bytes.
    fn adjust(&mut self) -> (cycles: usize)
        ensures
            final(self).did(old(self), Opcode::DecimalAdjustAccumulator, cycles),
    {
        proof {
            reveal(State::runs);
            reveal(State::after);
            reveal(State::cost);
        }
        let f = self.cpu.registers.f;
        let a = self.cpu.registers.a;
        let r = adjust_byte(a, f);
        if f.is_set(Flags::Subtract) && (f.is_set(Flags::Carry) || a > 0x99) {
            self.cpu.registers.f.set(Flags::Carry);
        }
        self.cpu.registers.a = r;
        self.cpu.registers.f.assign(Flags::Zero, r == 0);
        self.cpu.registers.f.unset(Flags::HalfCarry);
        1
    }

    /// Whether the instruction `opcode` can be executed now: the engine has
    /// it, and it reads and writes only where it may.
    pub fn can_execute(&self, opcode: Opcode) -> (r: bool)
        ensures
            r == self@.runs(opcode),
    {
        runnable(&self.cpu, &self.mem, opcode)
    }

    /// Whether a step can be made now: the byte at the program counter can be
    /// read and stands for an instruction that can be executed.
    pub fn can_step(&self) -> (r: bool)
        ensures
            r == self@.can_step(),
    {
        let pc = self.cpu.registers.pc;
        if !can_read(pc) {
            return false;
        }
        match Opcode::decode(self.mem.get_u8(pc)) {
            None => false,
            Some(opcode) => {
                let mut cpu = self.cpu;
                cpu.registers.pc = add16(pc, 1);
                runnable(&cpu, &self.mem, opcode)
            },
        }
    }

    /// Makes one step: reads the byte at the program counter, moves the
    /// program counter past it, decodes the byte and executes the
    /// instruction. Gives the cycles the instruction took.
    pub fn step(&mut self) -> (cycles: usize)
        requires
            old(self)@.can_step(),
        ensures
            cycles == old(self)@.step_cost(),
            final(self)@ == old(self)@.stepped(),
            final(self).keeps(old(self)),
            rom_kept(old(self)@.mem, final(self)@.mem),
            old(self)@.regs().f.is_clean() ==> final(self)@.regs().f.is_clean(),
    {
        let (byte, _) = self.fetch_byte();
        let opcode = Opcode::from_u8(byte);
        self.execute(opcode)
    }

    /// Whether this core can run the boot ROM. It has no boot sequence, so it
    /// never can.
    pub open spec fn runs_boot_rom(&self) -> bool {
        false
    }

    /// Runs the boot ROM. This core has no boot sequence: a console starts
    /// from its power-on state, and nothing may call this.
    pub fn execute_boot_rom(&mut self)
        requires
            old(self).runs_boot_rom(),
        ensures
            final(self)@ == old(self)@,
            final(self).keeps(old(self)),
    {
    }
}

/// The accumulator `a` after the decimal adjustment under the flag byte `f`.
fn adjust_byte(a: u8, f: F8) -> (r: u8)
    ensures
        r == adjusted(a, f),
{
    reveal(wrap8);
    if f.is_set(Flags::Subtract) {
        let first: u8 = if f.is_set(Flags::Carry) || a > 0x99 {
            a.wrapping_add(0x60)
        } else {
            a
        };
        if f.is_set(Flags::HalfCarry) || first % 16 > 0x09 {
            first.wrapping_add(0x06)
        } else {
            first
        }
    } else {
        let first: u8 = if f.is_set(Flags::Carry) {
            a.wrapping_sub(0x60)
        } else {
            a
        };
        if f.is_set(Flags::HalfCarry) {
            first.wrapping_sub(0x06)
        } else {
            first
        }
    }
}

/// The byte `a` moved one bit up, with `carry` (0 or 1) as its lowest bit.
fn shift_left(a: u8, carry: u8) -> (r: u8)
    requires
        carry <= 1,
    ensures
        r == wrap8(2 * a) + carry,
{
    reveal(wrap8);
    let r: u8 = (a << 1) | carry;
    assert((a << 1) | carry == (2 * a) % 256 + carry) by (bit_vector)
        requires
            carry <= 1,
    ;
    r
}

/// The byte `a` moved one bit down, with `carry` (0 or 1) as its highest bit.
fn shift_right(a: u8, carry: u8) -> (r: u8)
    requires
        carry <= 1,
    ensures
        r == a / 2 + 128 * carry,
{
    let r: u8 = (a >> 1) | (carry << 7);
    assert((a >> 1) | (carry << 7) == a / 2 + 128 * carry) by (bit_vector)
        requires
            carry <= 1,
    ;
    r
}

/// Whether a byte can go between the accumulator and `addr` in the direction
/// `direction`.
fn transferable(addr: u16, direction: LoadDirection) -> (r: bool)
    ensures
        r == State::can_transfer(addr, direction),
{
    match direction {
        LoadDirection::Memory => can_write(addr),
        LoadDirection::Accumulator => can_read(addr),
    }
}

/// Whether a load can be executed on the processor `cpu` and the address
/// space `mem`.
fn runnable_load(cpu: &Cpu, mem: &Mem, opcode: Opcode) -> (r: bool)
    requires
        opcode.is_load(),
    ensures
        r == (State { cpu: *cpu, mem: mem@ }).runs(opcode),
{
    proof {
        reveal(State::runs);
    }
    let regs = &cpu.registers;
    let hl = regs.get_r16(Register16::HL);
    match opcode {
        Opcode::LoadR8(dst, src) => (src != OpcodeRegister8::HL || can_read(hl)) && (dst
            != OpcodeRegister8::HL || can_write(hl)),
        Opcode::LoadImm8(dst) => can_read(regs.pc) && (dst != OpcodeRegister8::HL || can_write(
            hl,
        )),
        Opcode::LoadIndR16(src, direction) => transferable(
            regs.get_r16(Register16::from(src)),
            direction,
        ),
        Opcode::LoadIndOffImm8(direction) => can_read(regs.pc) && transferable(
            0xFF00 + mem.get_u8(regs.pc) as u16,
            direction,
        ),
        Opcode::LoadIndOffRegC(direction) => transferable(0xFF00 + regs.c as u16, direction),
        Opcode::LoadIndImm16(direction) => can_read_word(regs.pc) && transferable(
            mem.get_u16(regs.pc),
            direction,
        ),
        Opcode::LoadImm16(_) => can_read_word(regs.pc),
        Opcode::LoadIndImm16SP => can_read_word(regs.pc) && can_write_word(mem.get_u16(regs.pc)),
        Opcode::LoadSPHL => true,
        Opcode::PushR16(_) => can_write_word(sub16(regs.sp, 2)),
        Opcode::PopR16(_) => can_read_word(regs.sp),
        _ => can_read(regs.pc) && can_read_word(
            add16(regs.sp, mem.get_u8(regs.pc) as u16),
        ),
    }
}

/// Whether the instruction `opcode` can be executed on the processor `cpu`
/// and the address space `mem`.
fn runnable(cpu: &Cpu, mem: &Mem, opcode: Opcode) -> (r: bool)
    ensures
        r == (State { cpu: *cpu, mem: mem@ }).runs(opcode),
{
    proof {
        reveal(State::runs);
    }
    let regs = &cpu.registers;
    let taken = match opcode {
        Opcode::CallImm16(condition) | Opcode::Return(condition) => match condition {
            JumpCondition::Always => true,
            JumpCondition::SetFlag(flag) => regs.f.is_set(flag),
            JumpCondition::UnsetFlag(flag) => !regs.f.is_set(flag),
        },
        _ => true,
    };
    match opcode {
        Opcode::MathR8(_, src) => src != OpcodeRegister8::HL || can_read(
            regs.get_r16(Register16::HL),
        ),
        Opcode::IncR8(reg) | Opcode::DecR8(reg) => reg != OpcodeRegister8::HL || can_write(
            regs.get_r16(Register16::HL),
        ),
        Opcode::MathImm8(_) | Opcode::AddSPImm8 | Opcode::JumpOffImm8(_) => can_read(regs.pc),
        Opcode::JumpImm16(_) => can_read_word(regs.pc),
        Opcode::CallImm16(_) => can_read_word(regs.pc) && (!taken || can_write_word(
            sub16(regs.sp, 2),
        )),
        Opcode::Return(_) => !taken || can_read_word(regs.sp),
        Opcode::ReturnInterupt => can_read_word(regs.sp),
        Opcode::Restart(_) => can_write_word(sub16(regs.sp, 2)),
        Opcode::Halt | Opcode::Stop => false,
        Opcode::ComplementCarryFlag
        | Opcode::SetCarryFlag
        | Opcode::DecimalAdjustAccumulator
        | Opcode::ComplementAccumulator
        | Opcode::IncR16(_)
        | Opcode::DecR16(_)
        | Opcode::AddR16(_)
        | Opcode::RotateLeftCircularAccumulator
        | Opcode::RotateRightCircularAccumulator
        | Opcode::RotateLeftAccumulator
        | Opcode::RotateRightAccumulator
        | Opcode::JumpHL
        | Opcode::DisableInterrupts
        | Opcode::EnableInterrupts
        | Opcode::Noop => true,
        _ => runnable_load(cpu, mem, opcode),
    }
}

} // verus!
