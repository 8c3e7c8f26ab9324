//! The machine as a mathematical object: a processor and an address space,
//! and what each instruction makes of them.
//!
//! For an instruction `op` and a state `s`, `s.runs(op)` says whether the
//! instruction can be executed, `s.after(op)` is the state it leaves and
//! `s.cost(op)` the number of cycles it takes. All arithmetic on registers and
//! addresses wraps round.

use crate::cpu::proc::Cpu;
use crate::cpu::register::types::Flags;
use crate::cpu::register::types::Register16;
use crate::cpu::register::types::F8;
use crate::cpu::register::Registers;
use crate::gba::opcode::types::JumpCondition;
use crate::gba::opcode::types::LoadDirection;
use crate::gba::opcode::types::MathOp;
use crate::gba::opcode::types::OpcodeIndirectRegister16;
use crate::gba::opcode::types::OpcodeRegister16;
use crate::gba::opcode::types::OpcodeRegister8;
use crate::gba::opcode::Opcode;
use crate::mem::memory::load16;
use crate::mem::memory::readable;
use crate::mem::memory::readable_word;
use crate::mem::memory::store;
use crate::mem::memory::store16;
use crate::mem::memory::writable;
use crate::mem::memory::writable_word;
use crate::word::signed;
use crate::word::word;
use crate::word::wrap16;
use crate::word::wrap8;
use vstd::prelude::*;

verus! {

/// The state of the machine: the processor, and what a read at each address
/// gives.
pub struct State {
    pub cpu: Cpu,
    pub mem: Seq<u8>,
}

/// 1 if the carry flag is set in `f`, else 0.
pub open spec fn carry_in(f: F8) -> int {
    if f.has(Flags::Carry) {
        1
    } else {
        0
    }
}

/// The byte that the arithmetic operation `op` computes from the accumulator
/// `a`, the operand `v` and the carry `c` (0 or 1).
pub open spec fn math_value(op: MathOp, a: u8, v: u8, c: int) -> u8 {
    match op {
        MathOp::Add => wrap8(a + v),
        MathOp::Adc => wrap8(a + v + c),
        MathOp::Sub => wrap8(a - v),
        MathOp::Sbc => wrap8(a - v - c),
        MathOp::And => a & v,
        MathOp::Xor => a ^ v,
        MathOp::Or => a | v,
        MathOp::Cp => wrap8(a - v),
    }
}

/// Whether the operation leaves the carry flag set: an addition when the sum
/// does not fit in a byte, a subtraction when it borrows. The logical
/// operations clear it.
pub open spec fn math_carry(op: MathOp, a: u8, v: u8, c: int) -> bool {
    match op {
        MathOp::Add => a + v > 0xFF,
        MathOp::Adc => a + v + c > 0xFF,
        MathOp::Sub => a < v,
        MathOp::Sbc => a < v + c,
        MathOp::And => false,
        MathOp::Xor => false,
        MathOp::Or => false,
        MathOp::Cp => a < v,
    }
}

/// Whether the operation leaves the half-carry flag set: an addition when the
/// sum of the lower four bits does not fit in four bits, a subtraction when
/// the lower four bits borrow. `And` sets it, `Xor` and `Or` clear it.
pub open spec fn math_half_carry(op: MathOp, a: u8, v: u8, c: int) -> bool {
    match op {
        MathOp::Add => a % 16 + v % 16 > 0xF,
        MathOp::Adc => a % 16 + v % 16 + c > 0xF,
        MathOp::Sub => a % 16 < v % 16,
        MathOp::Sbc => a % 16 < v % 16 + c,
        MathOp::And => true,
        MathOp::Xor => false,
        MathOp::Or => false,
        MathOp::Cp => a % 16 < v % 16,
    }
}

/// Whether the operation leaves the subtract flag set: the three subtractions
/// do.
pub open spec fn math_subtract(op: MathOp) -> bool {
    op == MathOp::Sub || op == MathOp::Sbc || op == MathOp::Cp
}

/// The accumulator after the operation: the computed byte, but for the
/// comparison `Cp`, which keeps the accumulator.
pub open spec fn math_accumulator(op: MathOp, a: u8, v: u8, f: F8) -> u8 {
    if op == MathOp::Cp {
        a
    } else {
        math_value(op, a, v, carry_in(f))
    }
}

/// The flag byte after the operation: the zero flag is set if the computed
/// byte is zero and cleared if not, and the other three flags are as
/// `math_subtract`, `math_carry` and `math_half_carry` say.
pub open spec fn math_flags(op: MathOp, a: u8, v: u8, f: F8) -> F8 {
    let c = carry_in(f);
    f.with(Flags::Subtract, math_subtract(op)).with(Flags::Carry, math_carry(op, a, v, c)).with(
        Flags::Zero,
        math_value(op, a, v, c) == 0,
    ).with(Flags::HalfCarry, math_half_carry(op, a, v, c))
}

/// The accumulator after the decimal adjustment. After a subtraction it
/// grows: by 0x60 if the carry flag is set or it is above 0x99, then by 0x06 if
/// the half-carry flag is set or its lower four bits are above 9. After an
/// addition it shrinks: by 0x60 if the carry flag is set, then by 0x06 if
/// the half-carry flag is set.
pub open spec fn adjusted(a: u8, f: F8) -> u8 {
    if f.has(Flags::Subtract) {
        let first = if f.has(Flags::Carry) || a > 0x99 {
            wrap8(a + 0x60)
        } else {
            a
        };
        if f.has(Flags::HalfCarry) || first % 16 > 9 {
            wrap8(first + 0x06)
        } else {
            first
        }
    } else {
        let first = if f.has(Flags::Carry) {
            wrap8(a - 0x60)
        } else {
            a
        };
        if f.has(Flags::HalfCarry) {
            wrap8(first - 0x06)
        } else {
            first
        }
    }
}

/// The flag byte after the decimal adjustment of the accumulator `a`: the
/// carry flag is set where a subtraction's first step applies and kept
/// otherwise, the zero flag tells whether the adjusted accumulator is zero,
/// and the half-carry flag is cleared.
pub open spec fn adjusted_flags(a: u8, f: F8) -> F8 {
    let g = if f.has(Flags::Subtract) && (f.has(Flags::Carry) || a > 0x99) {
        f.with(Flags::Carry, true)
    } else {
        f
    };
    g.with(Flags::Zero, adjusted(a, f) == 0).with(Flags::HalfCarry, false)
}

/// The address of the I/O port `off`: 0xFF00 and above.
pub open spec fn port(off: u8) -> u16 {
    (0xFF00 + off) as u16
}

/// The 16-bit register that an instruction's operand names.
pub open spec fn pair(reg: OpcodeRegister16) -> Register16 {
    reg.register()
}

/// The word that an instruction writes to the 16-bit register `reg` when it
/// has computed `value`: the flag byte, the lower half of AF, never takes the
/// four bits without meaning.
pub open spec fn fitted(reg: OpcodeRegister16, value: u16) -> u16 {
    if reg == OpcodeRegister16::AF {
        (value - value % 16) as u16
    } else {
        value
    }
}

impl State {
    /// The registers.
    pub open spec fn regs(self) -> Registers {
        self.cpu.registers
    }

    /// This state with the registers `regs`.
    pub open spec fn with_regs(self, regs: Registers) -> State {
        State { cpu: Cpu { registers: regs, ..self.cpu }, ..self }
    }

    /// This state with the flag byte `f`.
    pub open spec fn with_flags(self, f: F8) -> State {
        self.with_regs(Registers { f: f, ..self.regs() })
    }

    /// This state with the accumulator `a`.
    pub open spec fn with_a(self, a: u8) -> State {
        self.with_regs(Registers { a: a, ..self.regs() })
    }

    /// This state with the program counter `pc`.
    pub open spec fn with_pc(self, pc: u16) -> State {
        self.with_regs(Registers { pc: pc, ..self.regs() })
    }

    /// This state with the stack pointer `sp`.
    pub open spec fn with_sp(self, sp: u16) -> State {
        self.with_regs(Registers { sp: sp, ..self.regs() })
    }

    /// This state with the interrupt switch `ime`.
    pub open spec fn with_ime(self, ime: u8) -> State {
        State { cpu: Cpu { ime: ime, ..self.cpu }, ..self }
    }

    /// This state with `value` in the 16-bit register `reg`.
    pub open spec fn with_r16(self, reg: Register16, value: u16) -> State {
        self.with_regs(self.regs().with_r16(reg, value))
    }

    /// This state after a write of `value` at the address `addr`.
    pub open spec fn with_byte(self, addr: u16, value: u8) -> State {
        State { mem: store(self.mem, addr, value), ..self }
    }

    /// The register HL.
    pub open spec fn hl(self) -> u16 {
        self.regs().r16(Register16::HL)
    }

    /// The byte at the program counter: the next byte of the program.
    pub open spec fn next_byte(self) -> u8 {
        self.mem[self.regs().pc as int]
    }

    /// The word at the program counter: the next two bytes of the program,
    /// lower byte first.
    pub open spec fn next_word(self) -> u16 {
        load16(self.mem, self.regs().pc)
    }

    /// Whether the next byte of the program can be read.
    pub open spec fn has_byte(self) -> bool {
        readable(self.regs().pc)
    }

    /// Whether the next two bytes of the program can be read.
    pub open spec fn has_word(self) -> bool {
        readable_word(self.regs().pc)
    }

    /// This state with the program counter `n` bytes further.
    pub open spec fn skip(self, n: int) -> State {
        self.with_pc(wrap16(self.regs().pc + n))
    }

    /// Whether the 8-bit operand `reg` can be read: a register always, the
    /// memory operand where HL holds a readable address.
    pub open spec fn can_read_operand(self, reg: OpcodeRegister8) -> bool {
        reg == OpcodeRegister8::HL ==> readable(self.hl())
    }

    /// Whether the 8-bit operand `reg` can be written: a register always, the
    /// memory operand where HL holds a writable address.
    pub open spec fn can_write_operand(self, reg: OpcodeRegister8) -> bool {
        reg == OpcodeRegister8::HL ==> writable(self.hl())
    }

    /// The 8-bit operand `reg`: the register, or the byte in memory at the
    /// address in HL.
    pub open spec fn operand(self, reg: OpcodeRegister8) -> u8 {
        if reg == OpcodeRegister8::HL {
            self.mem[self.hl() as int]
        } else {
            self.regs().r8(reg.register())
        }
    }

    /// This state with `value` in the 8-bit operand `reg`: in the register, or
    /// in memory at the address in HL.
    pub open spec fn with_operand(self, reg: OpcodeRegister8, value: u8) -> State {
        if reg == OpcodeRegister8::HL {
            self.with_byte(self.hl(), value)
        } else {
            self.with_regs(self.regs().with_r8(reg.register(), value))
        }
    }

    /// The cycles that an access to the 8-bit operand `reg` adds: one for the
    /// memory operand, none for a register.
    pub open spec fn operand_cost(reg: OpcodeRegister8) -> int {
        if reg == OpcodeRegister8::HL {
            1
        } else {
            0
        }
    }

    /// Whether a byte can go between the accumulator and the address `addr`
    /// in the direction `direction`.
    pub open spec fn can_transfer(addr: u16, direction: LoadDirection) -> bool {
        match direction {
            LoadDirection::Memory => writable(addr),
            LoadDirection::Accumulator => readable(addr),
        }
    }

    /// This state after a byte has gone between the accumulator and the
    /// address `addr`: to memory, or to the accumulator.
    pub open spec fn transferred(self, addr: u16, direction: LoadDirection) -> State {
        match direction {
            LoadDirection::Memory => self.with_byte(addr, self.regs().a),
            LoadDirection::Accumulator => self.with_a(self.mem[addr as int]),
        }
    }

    /// Whether a word can be pushed: a word can be written 2 below the stack
    /// pointer.
    pub open spec fn can_push(self) -> bool {
        writable_word(wrap16(self.regs().sp - 2))
    }

    /// This state after a push of `value`: the stack pointer is 2 lower, and
    /// the word is in memory at the new stack pointer, lower byte first.
    pub open spec fn pushed(self, value: u16) -> State {
        let sp = wrap16(self.regs().sp - 2);
        State { mem: store16(self.mem, sp, value), ..self.with_sp(sp) }
    }

    /// Whether a word can be popped: the two addresses at the stack pointer
    /// are readable.
    pub open spec fn can_pop(self) -> bool {
        readable_word(self.regs().sp)
    }

    /// The word on top of the stack.
    pub open spec fn top(self) -> u16 {
        load16(self.mem, self.regs().sp)
    }

    /// This state after a pop: the stack pointer is 2 higher.
    pub open spec fn popped(self) -> State {
        self.with_sp(wrap16(self.regs().sp + 2))
    }

    /// Whether a jump, call or return under `condition` is taken.
    pub open spec fn taken(self, condition: JumpCondition) -> bool {
        match condition {
            JumpCondition::Always => true,
            JumpCondition::SetFlag(flag) => self.regs().f.has(flag),
            JumpCondition::UnsetFlag(flag) => !self.regs().f.has(flag),
        }
    }

    /// This state after a jump to `addr` under `condition`.
    pub open spec fn jumped(self, addr: u16, condition: JumpCondition) -> State {
        if self.taken(condition) {
            self.with_pc(addr)
        } else {
            self
        }
    }

    /// This state after a call of `addr` under `condition`: where it is taken,
    /// the program counter is pushed and then set to `addr`.
    pub open spec fn called(self, addr: u16, condition: JumpCondition) -> State {
        if self.taken(condition) {
            self.pushed(self.regs().pc).with_pc(addr)
        } else {
            self
        }
    }

    /// This state after a return under `condition`: where it is taken, the
    /// program counter is popped.
    pub open spec fn returned(self, condition: JumpCondition) -> State {
        if self.taken(condition) {
            self.popped().with_pc(self.top())
        } else {
            self
        }
    }

    /// This state after the arithmetic operation `op` on the accumulator and
    /// the byte `v`.
    pub open spec fn computed(self, op: MathOp, v: u8) -> State {
        let a = self.regs().a;
        let f = self.regs().f;
        self.with_regs(
            Registers { a: math_accumulator(op, a, v, f), f: math_flags(op, a, v, f), ..self.regs() },
        )
    }

    /// The address that a load through the register pair `src` uses.
    pub open spec fn indirect(self, src: OpcodeIndirectRegister16) -> u16 {
        self.regs().r16(src.register())
    }

    /// This state after the register pair `src` has given its address: HL has
    /// moved one up or one down where `src` says so.
    pub open spec fn moved(self, src: OpcodeIndirectRegister16) -> State {
        match src {
            OpcodeIndirectRegister16::HLInc => self.with_r16(Register16::HL, wrap16(self.hl() + 1)),
            OpcodeIndirectRegister16::HLDec => self.with_r16(Register16::HL, wrap16(self.hl() - 1)),
            _ => self,
        }
    }

    /// The flag byte after an increment of the byte `v`: subtract is cleared,
    /// zero tells whether `v` was zero, half-carry whether bit 3 of `v` was
    /// set.
    pub open spec fn inc_flags(self, v: u8) -> F8 {
        self.regs().f.with(Flags::Subtract, false).with(Flags::Zero, v == 0).with(
            Flags::HalfCarry,
            v % 16 >= 8,
        )
    }

    /// The flag byte after a decrement of the byte `v`: subtract is cleared,
    /// zero tells whether `v` was zero, half-carry whether the lower four bits
    /// of `v` were other than 1.
    pub open spec fn dec_flags(self, v: u8) -> F8 {
        self.regs().f.with(Flags::Subtract, false).with(Flags::Zero, v == 0).with(
            Flags::HalfCarry,
            v % 16 != 1,
        )
    }

    /// The flag byte after the 16-bit addition of `v` to HL: subtract is
    /// cleared, carry tells whether the sum left 16 bits, half-carry whether
    /// the sum of bits 8 to 11 left four bits.
    pub open spec fn add16_flags(self, v: u16) -> F8 {
        let hl = self.hl();
        self.regs().f.with(Flags::Subtract, false).with(Flags::Carry, hl + v > 0xFFFF).with(
            Flags::HalfCarry,
            (hl / 256) % 16 + (v / 256) % 16 > 0xF,
        )
    }

    /// The flag byte after the stack pointer `sp` and the byte `off` gave an
    /// address: zero and subtract are cleared; where the sum left 16 bits
    /// carry is set, and where not the byte keeps its carry flag alone;
    /// half-carry then tells whether the sum of the lower four bits left four
    /// bits.
    pub open spec fn offset_flags(self, off: u8) -> F8 {
        let sp = self.regs().sp;
        let f = self.regs().f.with(Flags::Zero, false).with(Flags::Subtract, false);
        let g = if sp + off > 0xFFFF {
            f.with(Flags::Carry, true)
        } else {
            F8(f.0 & Flags::Carry.mask())
        };
        g.with(Flags::HalfCarry, sp % 16 + off % 16 > 0xF)
    }

    /// Whether moving the stack pointer by the signed byte `off` leaves the
    /// 16 bits: upwards past 0xFFFF, or downwards past 0.
    pub open spec fn sp_overflows(self, off: u8) -> bool {
        let sum = self.regs().sp + signed(off);
        sum > 0xFFFF || sum < 0
    }

    /// The flag byte after the stack pointer moved by the signed byte `off`:
    /// subtract is cleared, zero tells whether the move left the 16 bits, and
    /// half-carry whether the lower four bits of the new stack pointer and of
    /// `off` sum to 16.
    pub open spec fn add_sp_flags(self, off: u8) -> F8 {
        let sp = wrap16(self.regs().sp + signed(off));
        self.regs().f.with(Flags::Subtract, false).with(Flags::Zero, self.sp_overflows(off)).with(
            Flags::HalfCarry,
            sp % 16 + off % 16 == 16,
        )
    }

    /// Whether the instruction `op` can be executed in this state: the engine
    /// has it, every byte it reads is at a readable address, and every byte
    /// it writes at a writable one.
    #[verifier::opaque]
    pub open spec fn runs(self, op: Opcode) -> bool {
        match op {
            Opcode::LoadR8(dst, src) => self.can_read_operand(src) && self.can_write_operand(dst),
            Opcode::LoadImm8(dst) => self.has_byte() && self.can_write_operand(dst),
            Opcode::LoadIndR16(src, direction) => State::can_transfer(
                self.indirect(src),
                direction,
            ),
            Opcode::LoadIndOffImm8(direction) => self.has_byte() && State::can_transfer(
                port(self.next_byte()),
                direction,
            ),
            Opcode::LoadIndOffRegC(direction) => State::can_transfer(
                port(self.regs().c),
                direction,
            ),
            Opcode::LoadIndImm16(direction) => self.has_word() && State::can_transfer(
                self.next_word(),
                direction,
            ),
            Opcode::LoadImm16(_) => self.has_word(),
            Opcode::LoadIndImm16SP => self.has_word() && writable_word(self.next_word()),
            Opcode::LoadSPHL => true,
            Opcode::PushR16(_) => self.can_push(),
            Opcode::PopR16(_) => self.can_pop(),
            Opcode::LoadHLOffSp => self.has_byte() && readable_word(
                wrap16(self.regs().sp + self.next_byte()),
            ),
            Opcode::MathR8(_, src) => self.can_read_operand(src),
            Opcode::MathImm8(_) => self.has_byte(),
            Opcode::IncR8(reg) => self.can_write_operand(reg),
            Opcode::DecR8(reg) => self.can_write_operand(reg),
            Opcode::ComplementCarryFlag => true,
            Opcode::SetCarryFlag => true,
            Opcode::DecimalAdjustAccumulator => true,
            Opcode::ComplementAccumulator => true,
            Opcode::IncR16(_) => true,
            Opcode::DecR16(_) => true,
            Opcode::AddR16(_) => true,
            Opcode::AddSPImm8 => self.has_byte(),
            Opcode::RotateLeftCircularAccumulator => true,
            Opcode::RotateRightCircularAccumulator => true,
            Opcode::RotateLeftAccumulator => true,
            Opcode::RotateRightAccumulator => true,
            Opcode::JumpImm16(_) => self.has_word(),
            Opcode::JumpHL => true,
            Opcode::JumpOffImm8(_) => self.has_byte(),
            Opcode::CallImm16(condition) => self.has_word() && (self.taken(condition)
                ==> self.can_push()),
            Opcode::Return(condition) => self.taken(condition) ==> self.can_pop(),
            Opcode::ReturnInterupt => self.can_pop(),
            Opcode::Restart(_) => self.can_push(),
            Opcode::Halt => false,
            Opcode::Stop => false,
            Opcode::DisableInterrupts => true,
            Opcode::EnableInterrupts => true,
            Opcode::Noop => true,
        }
    }

    /// The state that the instruction `op` leaves.
    #[verifier::opaque]
    pub open spec fn after(self, op: Opcode) -> State {
        match op {
            Opcode::LoadR8(dst, src) => self.with_operand(dst, self.operand(src)),
            Opcode::LoadImm8(dst) => self.skip(1).with_operand(dst, self.next_byte()),
            Opcode::LoadIndR16(src, direction) => self.moved(src).transferred(
                self.indirect(src),
                direction,
            ),
            Opcode::LoadIndOffImm8(direction) => self.skip(1).transferred(
                port(self.next_byte()),
                direction,
            ),
            Opcode::LoadIndOffRegC(direction) => self.transferred(port(self.regs().c), direction),
            Opcode::LoadIndImm16(direction) => self.skip(2).transferred(
                self.next_word(),
                direction,
            ),
            Opcode::LoadImm16(dst) => self.skip(2).with_r16(
                pair(dst),
                fitted(dst, self.next_word()),
            ),
            Opcode::LoadIndImm16SP => {
                let s = self.skip(2);
                State { mem: store16(s.mem, self.next_word(), s.regs().sp), ..s }
            },
            Opcode::LoadSPHL => self.with_sp(self.hl()),
            Opcode::PushR16(src) => self.pushed(self.regs().r16(pair(src))),
            Opcode::PopR16(dst) => self.popped().with_r16(pair(dst), fitted(dst, self.top())),
            Opcode::LoadHLOffSp => self.skip(1).with_flags(self.offset_flags(self.next_byte())),
            Opcode::MathR8(op, src) => self.computed(op, self.operand(src)),
            Opcode::MathImm8(op) => self.skip(1).computed(op, self.next_byte()),
            Opcode::IncR8(reg) => {
                let v = self.operand(reg);
                self.with_flags(self.inc_flags(v)).with_operand(reg, wrap8(v + 1))
            },
            Opcode::DecR8(reg) => {
                let v = self.operand(reg);
                self.with_flags(self.dec_flags(v)).with_operand(reg, wrap8(v - 1))
            },
            Opcode::ComplementCarryFlag => self.with_flags(
                self.regs().f.toggled(Flags::Carry).with(Flags::Subtract, false).with(
                    Flags::HalfCarry,
                    false,
                ),
            ),
            Opcode::SetCarryFlag => self.with_flags(
                self.regs().f.with(Flags::Carry, true).with(Flags::Subtract, false).with(
                    Flags::HalfCarry,
                    false,
                ),
            ),
            Opcode::DecimalAdjustAccumulator => self.with_regs(
                Registers {
                    a: adjusted(self.regs().a, self.regs().f),
                    f: adjusted_flags(self.regs().a, self.regs().f),
                    ..self.regs()
                },
            ),
            Opcode::ComplementAccumulator => self.with_regs(
                Registers {
                    a: !self.regs().a,
                    f: self.regs().f.with(Flags::Subtract, true).with(Flags::HalfCarry, true),
                    ..self.regs()
                },
            ),
            Opcode::IncR16(reg) => self.with_r16(
                pair(reg),
                fitted(reg, wrap16(self.regs().r16(pair(reg)) + 1)),
            ),
            Opcode::DecR16(reg) => self.with_r16(
                pair(reg),
                fitted(reg, wrap16(self.regs().r16(pair(reg)) - 1)),
            ),
            Opcode::AddR16(src) => {
                let v = self.regs().r16(pair(src));
                self.with_flags(self.add16_flags(v)).with_r16(
                    Register16::HL,
                    wrap16(self.hl() + v),
                )
            },
            Opcode::AddSPImm8 => {
                let off = self.next_byte();
                self.skip(1).with_flags(self.add_sp_flags(off)).with_sp(
                    wrap16(self.regs().sp + signed(off)),
                )
            },
            Opcode::RotateLeftCircularAccumulator => self.with_regs(
                Registers { a: wrap8(2 * self.regs().a), f: F8(0), ..self.regs() },
            ),
            Opcode::RotateLeftAccumulator => self.with_regs(
                Registers {
                    a: (wrap8(2 * self.regs().a) + carry_in(self.regs().f)) as u8,
                    f: F8(0),
                    ..self.regs()
                },
            ),
            Opcode::RotateRightCircularAccumulator => self.with_regs(
                Registers { a: self.regs().a / 2, f: F8(0), ..self.regs() },
            ),
            Opcode::RotateRightAccumulator => self.with_regs(
                Registers {
                    a: (self.regs().a / 2 + 128 * carry_in(self.regs().f)) as u8,
                    f: F8(0),
                    ..self.regs()
                },
            ),
            Opcode::JumpImm16(condition) => self.skip(2).jumped(self.next_word(), condition),
            Opcode::JumpHL => self.with_pc(self.hl()),
            Opcode::JumpOffImm8(condition) => self.skip(1).jumped(
                wrap16(self.skip(1).regs().pc + signed(self.next_byte())),
                condition,
            ),
            Opcode::CallImm16(condition) => self.skip(2).called(self.next_word(), condition),
            Opcode::Return(condition) => self.returned(condition),
            Opcode::ReturnInterupt => self.popped().with_pc(self.top()).with_ime(1),
            Opcode::Restart(vector) => self.pushed(self.regs().pc).with_pc(vector as u16),
            Opcode::Halt => self,
            Opcode::Stop => self,
            Opcode::DisableInterrupts => self.with_ime(0),
            Opcode::EnableInterrupts => self.with_ime(1),
            Opcode::Noop => self,
        }
    }

    /// The cycles that the instruction `op` takes, instruction by instruction.
    /// Each takes one cycle, and at least one more for each byte of the
    /// program it reads after its opcode. An access to the memory operand
    /// adds one. A jump or call that is not taken adds nothing for the jump,
    /// and a return that is not taken adds one cycle, not four.
    #[verifier::opaque]
    pub open spec fn cost(self, op: Opcode) -> int {
        match op {
            Opcode::LoadR8(dst, src) => 1 + State::operand_cost(src) + State::operand_cost(dst),
            Opcode::LoadImm8(dst) => 2 + State::operand_cost(dst),
            Opcode::LoadIndR16(_, _) => 3,
            Opcode::LoadIndOffImm8(_) => 3,
            Opcode::LoadIndOffRegC(_) => 2,
            Opcode::LoadIndImm16(_) => 4,
            Opcode::LoadImm16(_) => 3,
            Opcode::LoadIndImm16SP => 5,
            Opcode::LoadSPHL => 2,
            Opcode::PushR16(_) => 4,
            Opcode::PopR16(_) => 3,
            Opcode::LoadHLOffSp => 3,
            Opcode::MathR8(_, src) => 1 + State::operand_cost(src),
            Opcode::MathImm8(_) => 2,
            Opcode::IncR8(reg) => 1 + 2 * State::operand_cost(reg),
            Opcode::DecR8(reg) => 1 + 2 * State::operand_cost(reg),
            Opcode::ComplementCarryFlag => 1,
            Opcode::SetCarryFlag => 1,
            Opcode::DecimalAdjustAccumulator => 1,
            Opcode::ComplementAccumulator => 1,
            Opcode::IncR16(_) => 2,
            Opcode::DecR16(_) => 2,
            Opcode::AddR16(_) => 2,
            Opcode::AddSPImm8 => 2,
            Opcode::RotateLeftCircularAccumulator => 1,
            Opcode::RotateRightCircularAccumulator => 1,
            Opcode::RotateLeftAccumulator => 1,
            Opcode::RotateRightAccumulator => 1,
            Opcode::JumpImm16(condition) => if self.taken(condition) {
                4
            } else {
                3
            },
            Opcode::JumpHL => 1,
            Opcode::JumpOffImm8(condition) => if self.taken(condition) {
                3
            } else {
                2
            },
            Opcode::CallImm16(condition) => if self.taken(condition) {
                6
            } else {
                3
            },
            Opcode::Return(condition) => if self.taken(condition) {
                5
            } else {
                2
            },
            Opcode::ReturnInterupt => 4,
            Opcode::Restart(_) => 4,
            Opcode::Halt => 1,
            Opcode::Stop => 1,
            Opcode::DisableInterrupts => 1,
            Opcode::EnableInterrupts => 1,
            Opcode::Noop => 1,
        }
    }

    /// Whether one step can be made from this state: the byte at the program
    /// counter can be read, it stands for an instruction, and that
    /// instruction can be executed once the program counter is past the byte.
    pub open spec fn can_step(self) -> bool {
        &&& self.has_byte()
        &&& Opcode::parse(self.next_byte()) is Some
        &&& self.skip(1).runs(Opcode::parse(self.next_byte()).unwrap())
    }

    /// The state after one step: the instruction at the program counter has
    /// been read and executed.
    pub open spec fn stepped(self) -> State {
        self.skip(1).after(Opcode::parse(self.next_byte()).unwrap())
    }

    /// The cycles that one step takes: those of the instruction at the program
    /// counter.
    pub open spec fn step_cost(self) -> int {
        self.skip(1).cost(Opcode::parse(self.next_byte()).unwrap())
    }
}

/// The engine does not have the two instructions that stop the processor:
/// they can be executed in no state.
pub proof fn lemma_stubs(s: State, op: Opcode)
    requires
        op == Opcode::Halt || op == Opcode::Stop,
    ensures
        !s.runs(op),
{
    reveal(State::runs);
}

} // verus!
