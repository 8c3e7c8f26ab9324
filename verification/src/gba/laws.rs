//! What holds of every state and every instruction: the rules of the flags,
//! the discipline of the stack, the two outcomes of a conditional jump, and
//! what no instruction can change.

use crate::cpu::register::lemma_r16_fields;
use crate::cpu::register::lemma_with_r16_fields;
use crate::cpu::register::types::lemma_toggled;
use crate::cpu::register::types::lemma_with;
use crate::cpu::register::types::Flags;
use crate::cpu::register::types::Register16;
use crate::cpu::register::types::F8;
use crate::gba::machine::carry_in;
use crate::gba::machine::fitted;
use crate::gba::machine::math_carry;
use crate::gba::machine::math_flags;
use crate::gba::machine::math_half_carry;
use crate::gba::machine::math_subtract;
use crate::gba::machine::math_value;
use crate::gba::machine::State;
use crate::gba::opcode::types::JumpCondition;
use crate::gba::opcode::types::LoadDirection;
use crate::gba::opcode::types::MathOp;
use crate::gba::opcode::types::OpcodeRegister16;
use crate::gba::opcode::types::OpcodeRegister8;
use crate::gba::opcode::Opcode;
use crate::cpu::register::Registers;
use crate::gba::machine::adjusted;
use crate::gba::machine::pair;
use crate::gba::machine::port;
use crate::mem::memory::coherent;
use crate::mem::memory::lemma_store_coherent;
use crate::mem::memory::store;
use crate::mem::memory::store16;
use crate::mem::memory::writable;
use crate::mem::memory::writable_word;
use crate::word::high_byte;
use crate::word::lemma_wrap16;
use crate::word::low_byte;
use crate::word::signed;
use crate::word::wrap16;
use crate::word::wrap8;
use vstd::prelude::*;

verus! {

/// The flags after an arithmetic operation: zero is set exactly if the
/// computed byte is zero, subtract exactly for the three subtractions, carry
/// exactly if the operation carried or borrowed, and half-carry exactly if it
/// carried or borrowed between the lower and the upper four bits. The four
/// bits without meaning stay as they were.
pub proof fn lemma_math_flags(op: MathOp, a: u8, v: u8, f: F8)
    ensures
        math_flags(op, a, v, f).has(Flags::Zero) == (math_value(op, a, v, carry_in(f)) == 0),
        math_flags(op, a, v, f).has(Flags::Subtract) == math_subtract(op),
        math_flags(op, a, v, f).has(Flags::Carry) == math_carry(op, a, v, carry_in(f)),
        math_flags(op, a, v, f).has(Flags::HalfCarry) == math_half_carry(op, a, v, carry_in(f)),
        math_flags(op, a, v, f).0 & 0x0F == f.0 & 0x0F,
{
    let c = carry_in(f);
    let f1 = f.with(Flags::Subtract, math_subtract(op));
    let f2 = f1.with(Flags::Carry, math_carry(op, a, v, c));
    let f3 = f2.with(Flags::Zero, math_value(op, a, v, c) == 0);
    lemma_with(f, Flags::Subtract, math_subtract(op), Flags::Subtract);
    lemma_with(f1, Flags::Carry, math_carry(op, a, v, c), Flags::Subtract);
    lemma_with(f2, Flags::Zero, math_value(op, a, v, c) == 0, Flags::Subtract);
    lemma_with(f2, Flags::Zero, math_value(op, a, v, c) == 0, Flags::Carry);
    lemma_with(f3, Flags::HalfCarry, math_half_carry(op, a, v, c), Flags::Subtract);
    lemma_with(f3, Flags::HalfCarry, math_half_carry(op, a, v, c), Flags::Carry);
    lemma_with(f3, Flags::HalfCarry, math_half_carry(op, a, v, c), Flags::Zero);
}

/// A word that was pushed is the word on top of the stack, and a pop after
/// the push leaves every register as it was before the push, the stack
/// pointer among them.
pub proof fn lemma_push_pop(s: State, value: u16)
    requires
        s.mem.len() == 0x1_0000,
        s.can_push(),
    ensures
        s.pushed(value).can_pop(),
        s.pushed(value).top() == value,
        s.pushed(value).popped().cpu == s.cpu,
        s.pushed(value).regs().sp == wrap16(s.regs().sp - 2),
{
    reveal(wrap16);
}

/// Of two words pushed one after the other, the second is popped first and
/// the first is popped second, and the stack pointer is then where it was.
pub proof fn lemma_push_push_pop_pop(s: State, first: u16, second: u16)
    requires
        s.mem.len() == 0x1_0000,
        s.can_push(),
        s.pushed(first).can_push(),
    ensures
        s.pushed(first).pushed(second).top() == second,
        s.pushed(first).pushed(second).popped().top() == first,
        s.pushed(first).pushed(second).popped().popped().cpu == s.cpu,
{
    reveal(wrap16);
}

/// A conditional jump to an absolute address whose condition does not hold
/// moves the program counter past its two operand bytes, changes nothing
/// else, and takes 3 cycles. One whose condition holds sets the program
/// counter to the address in its operand bytes and takes 4 cycles.
pub proof fn lemma_jump(s: State, condition: JumpCondition)
    ensures
        !s.taken(condition) ==> s.after(Opcode::JumpImm16(condition)) == s.skip(2) && s.cost(
            Opcode::JumpImm16(condition),
        ) == 3,
        s.taken(condition) ==> s.after(Opcode::JumpImm16(condition)) == s.with_pc(s.next_word())
            && s.cost(Opcode::JumpImm16(condition)) == 4,
{
    reveal(State::after);
    reveal(State::cost);
}

/// A conditional jump by a displacement whose condition does not hold moves
/// the program counter past its one operand byte, changes nothing else, and
/// takes 2 cycles. One whose condition holds moves the program counter from
/// there by the signed operand byte and takes 3 cycles.
pub proof fn lemma_relative_jump(s: State, condition: JumpCondition)
    ensures
        !s.taken(condition) ==> s.after(Opcode::JumpOffImm8(condition)) == s.skip(1) && s.cost(
            Opcode::JumpOffImm8(condition),
        ) == 2,
        s.taken(condition) ==> s.after(Opcode::JumpOffImm8(condition)) == s.with_pc(
            wrap16(s.regs().pc + 1 + signed(s.next_byte())),
        ) && s.cost(Opcode::JumpOffImm8(condition)) == 3,
{
    reveal(wrap16);
    reveal(State::after);
    reveal(State::cost);
}

/// A conditional call whose condition does not hold moves the program
/// counter past its two operand bytes, changes nothing else, and takes 3
/// cycles. One whose condition holds takes 6 cycles, and leaves the address
/// after its operand bytes on top of the stack and the program counter at the
/// address in its operand bytes.
pub proof fn lemma_call(s: State, condition: JumpCondition)
    requires
        s.mem.len() == 0x1_0000,
        s.runs(Opcode::CallImm16(condition)),
    ensures
        !s.taken(condition) ==> s.after(Opcode::CallImm16(condition)) == s.skip(2) && s.cost(
            Opcode::CallImm16(condition),
        ) == 3,
        s.taken(condition) ==> s.after(Opcode::CallImm16(condition)).top() == wrap16(
            s.regs().pc + 2,
        ) && s.after(Opcode::CallImm16(condition)).regs().pc == s.next_word() && s.cost(
            Opcode::CallImm16(condition),
        ) == 6,
{
    reveal(State::runs);
    reveal(State::after);
    reveal(State::cost);
    if s.taken(condition) {
        lemma_push_pop(s.skip(2), s.skip(2).regs().pc);
    }
}

/// A conditional return whose condition does not hold changes nothing and
/// takes 2 cycles. One whose condition holds pops the program counter and
/// takes 5 cycles.
pub proof fn lemma_return(s: State, condition: JumpCondition)
    ensures
        !s.taken(condition) ==> s.after(Opcode::Return(condition)) == s && s.cost(
            Opcode::Return(condition),
        ) == 2,
        s.taken(condition) ==> s.after(Opcode::Return(condition)) == s.popped().with_pc(s.top())
            && s.cost(Opcode::Return(condition)) == 5,
{
    reveal(State::after);
    reveal(State::cost);
}

/// A call that is taken and a return that follows it at once lead back to the
/// address after the call's operand bytes, with the stack pointer where it
/// was before the call.
pub proof fn lemma_call_return(s: State)
    requires
        s.mem.len() == 0x1_0000,
        s.runs(Opcode::CallImm16(JumpCondition::Always)),
    ensures
        s.after(Opcode::CallImm16(JumpCondition::Always)).runs(
            Opcode::Return(JumpCondition::Always),
        ),
        s.after(Opcode::CallImm16(JumpCondition::Always)).after(
            Opcode::Return(JumpCondition::Always),
        ).cpu == s.skip(2).cpu,
{
    reveal(State::runs);
    reveal(State::after);
    lemma_push_pop(s.skip(2), s.skip(2).regs().pc);
}

/// A push of a 16-bit register and a pop into the same register that follows
/// it at once leave the processor as it was, where the register is not AF or
/// the four bits without meaning of the flag byte are zero.
pub proof fn lemma_push_pop_register(s: State, reg: OpcodeRegister16)
    requires
        s.mem.len() == 0x1_0000,
        s.runs(Opcode::PushR16(reg)),
        reg != OpcodeRegister16::AF || s.regs().f.is_clean(),
    ensures
        s.after(Opcode::PushR16(reg)).runs(Opcode::PopR16(reg)),
        s.after(Opcode::PushR16(reg)).after(Opcode::PopR16(reg)).cpu == s.cpu,
{
    reveal(State::runs);
    reveal(State::after);
    let value = s.regs().r16(reg.register());
    lemma_push_pop(s, value);
    lemma_r16_fields(s.regs(), reg.register());
    lemma_with_r16_fields(s.regs(), reg.register(), fitted(reg, value));
    if reg == OpcodeRegister16::AF {
        lemma_clean_word(s.regs().a, s.regs().f.0);
    }
}

/// A word whose lower byte has its lower four bits zero loses nothing when
/// those bits are taken from it.
proof fn lemma_clean_word(high: u8, low: u8)
    by (bit_vector)
    requires
        low & 0x0F == 0,
    ensures
        (high as u16 * 256 + low as u16) % 16 == 0,
{
}

/// A write that an instruction may make keeps the length of the address
/// space, what the two ROM regions show, and its coherence.
proof fn lemma_write(s: State, addr: u16, value: u8)
    requires
        s.mem.len() == 0x1_0000,
        writable(addr),
    ensures
        store(s.mem, addr, value).len() == 0x1_0000,
        forall|i: int| 0 <= i < 0x8000 ==> store(s.mem, addr, value)[i] == s.mem[i],
        coherent(s.mem) ==> coherent(store(s.mem, addr, value)),
{
    if coherent(s.mem) {
        lemma_store_coherent(s.mem, addr, value);
    }
}

/// What `lemma_write` says of a byte, of a word.
proof fn lemma_write_word(s: State, addr: u16, value: u16)
    requires
        s.mem.len() == 0x1_0000,
        writable_word(addr),
    ensures
        store16(s.mem, addr, value).len() == 0x1_0000,
        forall|i: int| 0 <= i < 0x8000 ==> store16(s.mem, addr, value)[i] == s.mem[i],
        coherent(s.mem) ==> coherent(store16(s.mem, addr, value)),
{
    let t = State { mem: store(s.mem, addr, low_byte(value)), ..s };
    lemma_write(s, addr, low_byte(value));
    lemma_write(t, wrap16(addr + 1), high_byte(value));
}

/// Whether the address space `after` has the length of `before`, shows in
/// the two ROM regions what `before` shows there, and is coherent where
/// `before` is.
pub open spec fn rom_kept(before: Seq<u8>, after: Seq<u8>) -> bool {
    &&& after.len() == before.len()
    &&& forall|i: int| 0 <= i < 0x8000 ==> after[i] == before[i]
    &&& coherent(before) ==> coherent(after)
}

/// No load changes what the two ROM regions show.
proof fn lemma_rom_load(s: State, op: Opcode)
    requires
        s.mem.len() == 0x1_0000,
        s.runs(op),
        op.is_load(),
    ensures
        rom_kept(s.mem, s.after(op).mem),
{
    reveal(State::runs);
    reveal(State::after);
    match op {
        Opcode::LoadR8(dst, src) => {
            if dst == OpcodeRegister8::HL {
                lemma_write(s, s.hl(), s.operand(src));
            }
        },
        Opcode::LoadImm8(dst) => {
            lemma_r16_fields(s.regs(), Register16::HL);
            lemma_r16_fields(s.skip(1).regs(), Register16::HL);
            if dst == OpcodeRegister8::HL {
                lemma_write(s.skip(1), s.skip(1).hl(), s.next_byte());
            }
        },
        Opcode::LoadIndR16(src, direction) => {
            if direction == LoadDirection::Memory {
                lemma_write(s.moved(src), s.indirect(src), s.moved(src).regs().a);
            }
        },
        Opcode::LoadIndOffImm8(direction) => {
            if direction == LoadDirection::Memory {
                lemma_write(s.skip(1), port(s.next_byte()), s.regs().a);
            }
        },
        Opcode::LoadIndOffRegC(direction) => {
            if direction == LoadDirection::Memory {
                lemma_write(s, port(s.regs().c), s.regs().a);
            }
        },
        Opcode::LoadIndImm16(direction) => {
            if direction == LoadDirection::Memory {
                lemma_write(s.skip(2), s.next_word(), s.regs().a);
            }
        },
        Opcode::LoadIndImm16SP => {
            lemma_write_word(s.skip(2), s.next_word(), s.regs().sp);
        },
        Opcode::PushR16(src) => {
            lemma_write_word(s, wrap16(s.regs().sp - 2), s.regs().r16(pair(src)));
        },
        _ => {},
    }
}

/// No instruction changes what the two ROM regions show: from 0x0000 to
/// 0x7FFF the address space reads after the instruction as it read before.
/// Nor does one change the length of the address space, or its coherence.
pub proof fn lemma_rom_is_constant(s: State, op: Opcode)
    requires
        s.mem.len() == 0x1_0000,
        s.runs(op),
    ensures
        rom_kept(s.mem, s.after(op).mem),
{
    if op.is_load() {
        lemma_rom_load(s, op);
    } else {
        reveal(State::runs);
        reveal(State::after);
        match op {
            Opcode::IncR8(reg) => {
                let t = s.with_flags(s.inc_flags(s.operand(reg)));
                lemma_r16_fields(s.regs(), Register16::HL);
                lemma_r16_fields(t.regs(), Register16::HL);
                if reg == OpcodeRegister8::HL {
                    lemma_write(t, t.hl(), wrap8(s.operand(reg) + 1));
                }
            },
            Opcode::DecR8(reg) => {
                let t = s.with_flags(s.dec_flags(s.operand(reg)));
                lemma_r16_fields(s.regs(), Register16::HL);
                lemma_r16_fields(t.regs(), Register16::HL);
                if reg == OpcodeRegister8::HL {
                    lemma_write(t, t.hl(), wrap8(s.operand(reg) - 1));
                }
            },
            Opcode::CallImm16(condition) => {
                if s.taken(condition) {
                    lemma_write_word(s.skip(2), wrap16(s.regs().sp - 2), s.skip(2).regs().pc);
                }
            },
            Opcode::Restart(_) => {
                lemma_write_word(s, wrap16(s.regs().sp - 2), s.regs().pc);
            },
            _ => {},
        }
    }
}

/// A flag byte made of the carry flag of another alone has its four bits
/// without meaning zero.
proof fn lemma_carry_alone(f: u8)
    by (bit_vector)
    ensures
        (f & 0x10) & 0x0F == 0,
        0u8 & 0x0F == 0,
{
}

/// The lower byte of a word without its lower four bits has its lower four
/// bits zero.
proof fn lemma_fitted_clean(value: u16)
    by (bit_vector)
    ensures
        (((value - value % 16) as u16 % 256) as u8) & 0x0F == 0,
{
}

/// An instruction that writes a 16-bit register leaves the flag byte clean
/// if it was.
proof fn lemma_clean_pair(regs: Registers, reg: OpcodeRegister16, value: u16)
    requires
        regs.f.is_clean(),
    ensures
        regs.with_r16(pair(reg), fitted(reg, value)).f.is_clean(),
{
    lemma_with_r16_fields(regs, pair(reg), fitted(reg, value));
    lemma_fitted_clean(value);
}

/// No load sets one of the four bits without meaning of the flag byte.
proof fn lemma_clean_load(s: State, op: Opcode)
    requires
        s.regs().f.is_clean(),
        op.is_load(),
    ensures
        s.after(op).regs().f.is_clean(),
{
    reveal(State::after);
    match op {
        Opcode::LoadIndR16(_, _) => {
            lemma_with_r16_fields(s.regs(), Register16::HL, wrap16(s.hl() + 1));
            lemma_with_r16_fields(s.regs(), Register16::HL, wrap16(s.hl() - 1));
        },
        Opcode::LoadImm16(dst) => {
            lemma_clean_pair(s.skip(2).regs(), dst, s.next_word());
        },
        Opcode::PopR16(dst) => {
            lemma_clean_pair(s.popped().regs(), dst, s.top());
        },
        Opcode::LoadHLOffSp => {
            let off = s.next_byte();
            let f0 = s.regs().f;
            let f1 = f0.with(Flags::Zero, false);
            let f2 = f1.with(Flags::Subtract, false);
            lemma_with(f0, Flags::Zero, false, Flags::Zero);
            lemma_with(f1, Flags::Subtract, false, Flags::Zero);
            lemma_with(f2, Flags::Carry, true, Flags::Zero);
            lemma_carry_alone(f2.0);
            let g = if s.regs().sp + off > 0xFFFF {
                f2.with(Flags::Carry, true)
            } else {
                F8(f2.0 & Flags::Carry.mask())
            };
            lemma_with(g, Flags::HalfCarry, s.regs().sp % 16 + off % 16 > 0xF, Flags::Zero);
        },
        _ => {},
    }
}

/// The flag byte after three flags were written is clean if it was before.
proof fn lemma_clean_three(f: F8, x: Flags, a: bool, y: Flags, b: bool, z: Flags, c: bool)
    requires
        f.is_clean(),
    ensures
        f.with(x, a).is_clean(),
        f.with(x, a).with(y, b).is_clean(),
        f.with(x, a).with(y, b).with(z, c).is_clean(),
{
    lemma_with(f, x, a, x);
    lemma_with(f.with(x, a), y, b, y);
    lemma_with(f.with(x, a).with(y, b), z, c, z);
}

/// No arithmetic, flag or rotate instruction sets one of the four bits
/// without meaning of the flag byte.
proof fn lemma_clean_arithmetic(s: State, op: Opcode)
    requires
        s.regs().f.is_clean(),
        op.is_arithmetic(),
    ensures
        s.after(op).regs().f.is_clean(),
{
    reveal(State::after);
    let f = s.regs().f;
    let a = s.regs().a;
    match op {
        Opcode::MathR8(m, src) => {
            lemma_math_flags(m, a, s.operand(src), f);
        },
        Opcode::MathImm8(m) => {
            lemma_math_flags(m, a, s.next_byte(), f);
        },
        Opcode::IncR8(reg) => {
            let v = s.operand(reg);
            lemma_clean_three(f, Flags::Subtract, false, Flags::Zero, v == 0, Flags::HalfCarry, v
                % 16 >= 8);
        },
        Opcode::DecR8(reg) => {
            let v = s.operand(reg);
            lemma_clean_three(f, Flags::Subtract, false, Flags::Zero, v == 0, Flags::HalfCarry, v
                % 16 != 1);
        },
        Opcode::ComplementCarryFlag => {
            lemma_toggled(f, Flags::Carry, Flags::Carry);
            lemma_clean_three(
                f.toggled(Flags::Carry),
                Flags::Subtract,
                false,
                Flags::HalfCarry,
                false,
                Flags::HalfCarry,
                false,
            );
        },
        Opcode::SetCarryFlag => {
            lemma_clean_three(
                f,
                Flags::Carry,
                true,
                Flags::Subtract,
                false,
                Flags::HalfCarry,
                false,
            );
        },
        Opcode::DecimalAdjustAccumulator => {
            lemma_with(f, Flags::Carry, true, Flags::Carry);
            let g = if f.has(Flags::Subtract) && (f.has(Flags::Carry) || a > 0x99) {
                f.with(Flags::Carry, true)
            } else {
                f
            };
            lemma_clean_three(
                g,
                Flags::Zero,
                adjusted(a, f) == 0,
                Flags::HalfCarry,
                false,
                Flags::HalfCarry,
                false,
            );
        },
        Opcode::ComplementAccumulator => {
            lemma_clean_three(
                f,
                Flags::Subtract,
                true,
                Flags::HalfCarry,
                true,
                Flags::HalfCarry,
                true,
            );
        },
        Opcode::IncR16(reg) => {
            lemma_clean_pair(s.regs(), reg, wrap16(s.regs().r16(pair(reg)) + 1));
        },
        Opcode::DecR16(reg) => {
            lemma_clean_pair(s.regs(), reg, wrap16(s.regs().r16(pair(reg)) - 1));
        },
        Opcode::AddR16(src) => {
            let v = s.regs().r16(pair(src));
            let hl = s.hl();
            lemma_clean_three(
                f,
                Flags::Subtract,
                false,
                Flags::Carry,
                hl + v > 0xFFFF,
                Flags::HalfCarry,
                (hl / 256) % 16 + (v / 256) % 16 > 0xF,
            );
            lemma_with_r16_fields(
                s.with_flags(s.add16_flags(v)).regs(),
                Register16::HL,
                wrap16(hl + v),
            );
        },
        Opcode::AddSPImm8 => {
            let off = s.next_byte();
            let sp = wrap16(s.regs().sp + signed(off));
            lemma_clean_three(
                f,
                Flags::Subtract,
                false,
                Flags::Zero,
                s.sp_overflows(off),
                Flags::HalfCarry,
                sp % 16 + off % 16 == 16,
            );
        },
        _ => {
            lemma_carry_alone(0);
        },
    }
}

/// The four bits without meaning of the flag byte stay zero: where they are
/// zero before an instruction, they are zero after it.
pub proof fn lemma_flags_stay_clean(s: State, op: Opcode)
    requires
        s.regs().f.is_clean(),
    ensures
        s.after(op).regs().f.is_clean(),
{
    if op.is_load() {
        lemma_clean_load(s, op);
    } else if op.is_arithmetic() {
        lemma_clean_arithmetic(s, op);
    } else {
        reveal(State::after);
    }
}

/// Every instruction takes at least one cycle, and one more for each byte of
/// the program it reads after its opcode.
pub proof fn lemma_cost_floor(s: State, op: Opcode)
    ensures
        s.cost(op) >= 1 + op.operand_bytes(),
{
    reveal(State::cost);
}

/// An instruction that is no jump, call or return moves the program counter
/// past the bytes of its immediate operand, and no further.
pub proof fn lemma_program_counter(s: State, op: Opcode)
    requires
        !op.is_jump(),
    ensures
        s.after(op).regs().pc == wrap16(s.regs().pc + op.operand_bytes()),
{
    reveal(State::after);
    lemma_wrap16(s.regs().pc as int);
    match op {
        Opcode::LoadIndR16(_, _) => {
            lemma_with_r16_fields(s.regs(), Register16::HL, wrap16(s.hl() + 1));
            lemma_with_r16_fields(s.regs(), Register16::HL, wrap16(s.hl() - 1));
        },
        Opcode::LoadImm16(dst) => {
            lemma_with_r16_fields(s.skip(2).regs(), pair(dst), fitted(dst, s.next_word()));
        },
        Opcode::PopR16(dst) => {
            lemma_with_r16_fields(s.popped().regs(), pair(dst), fitted(dst, s.top()));
        },
        Opcode::IncR16(reg) => {
            lemma_with_r16_fields(
                s.regs(),
                pair(reg),
                fitted(reg, wrap16(s.regs().r16(pair(reg)) + 1)),
            );
        },
        Opcode::DecR16(reg) => {
            lemma_with_r16_fields(
                s.regs(),
                pair(reg),
                fitted(reg, wrap16(s.regs().r16(pair(reg)) - 1)),
            );
        },
        Opcode::AddR16(src) => {
            let v = s.regs().r16(pair(src));
            lemma_with_r16_fields(
                s.with_flags(s.add16_flags(v)).regs(),
                Register16::HL,
                wrap16(s.hl() + v),
            );
        },
        _ => {},
    }
}

} // verus!
