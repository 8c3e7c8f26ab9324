use gbcore::cpu::register::types::Flags;
use gbcore::cpu::register::types::Register16;
use gbcore::cpu::register::types::F8;
use gbcore::gba::console::alu;
use gbcore::gba::console::Gba;
use gbcore::gba::opcode::types::JumpCondition;
use gbcore::gba::opcode::types::LoadDirection;
use gbcore::gba::opcode::types::MathOp;
use gbcore::gba::opcode::types::OpcodeIndirectRegister16;
use gbcore::gba::opcode::types::OpcodeRegister16;
use gbcore::gba::opcode::types::OpcodeRegister8;
use gbcore::gba::opcode::Opcode;
use gbcore::mem::cart::Cart;

const Z: u8 = 0x80;
const N: u8 = 0x40;
const H: u8 = 0x20;
const C: u8 = 0x10;

fn console(program: &[u8]) -> Gba<'static> {
    let mut data = vec![0u8; 0x8000];
    data[..program.len()].copy_from_slice(program);
    data[0x146] = 0x00;
    data[0x147] = 0x01;
    data[0x148] = 0x00;
    data[0x149] = 0x00;
    data[0x14A] = 0x00;
    data[0x14B] = 0x33;
    Gba::new(Cart::new(data), &[])
}

#[test]
fn console_starts_zeroed_over_its_cartridge() {
    let boot: [u8; 3] = [1, 2, 3];
    let mut data = vec![0u8; 0x4000];
    data[0] = 0x3E;
    data[0x146] = 0x00;
    data[0x147] = 0x01;
    data[0x14B] = 0x33;
    let gba = Gba::new(Cart::new(data), &boot);
    assert_eq!(gba.cpu.registers.get_r16(Register16::PC), 0);
    assert_eq!(gba.cpu.registers.get_r16(Register16::SP), 0);
    assert_eq!(gba.cpu.registers.get_r16(Register16::AF), 0);
    assert_eq!(gba.cpu.ime, 0);
    assert_eq!(gba.mem.get_u8(0x0000), 0x3E);
    assert_eq!(gba.mem.get_u8(0x4000), 0x3E);
    assert_eq!(gba.mem.get_u8(0xC000), 0x00);
    assert_eq!(gba.boot_rom, &boot);
}

#[test]
fn load_immediate_then_add_immediate() {
    let mut gba = console(&[0x3E, 0x05, 0xC6, 0x03]);
    let first = gba.step();
    assert_eq!(gba.cpu.registers.a, 0x05);
    assert_eq!(gba.cpu.registers.pc, 2);
    let second = gba.step();
    assert_eq!(gba.cpu.registers.a, 0x08);
    assert_eq!(gba.cpu.registers.pc, 4);
    assert!(!gba.cpu.registers.f.is_set(Flags::Zero));
    assert!(!gba.cpu.registers.f.is_set(Flags::Carry));
    assert!(!gba.cpu.registers.f.is_set(Flags::HalfCarry));
    assert_eq!(first, 2);
    assert_eq!(second, 2);
    assert_eq!(first + second, 4);
}

#[test]
fn the_same_by_decode_and_execute() {
    let mut gba = console(&[0x3E, 0x05, 0xC6, 0x03]);
    let mut total = 0;
    for _ in 0..2 {
        let (byte, _) = gba.fetch_byte();
        let opcode = Opcode::from_u8(byte);
        assert!(gba.can_execute(opcode));
        total += gba.execute(opcode);
    }
    assert_eq!(gba.cpu.registers.a, 0x08);
    assert_eq!(gba.cpu.registers.f, F8(0));
    assert_eq!(total, 4);
}

#[test]
fn add_at_the_boundaries() {
    assert_eq!(alu(MathOp::Add, 0x00, 0x00, F8(0)), (0x00, F8(Z)));
    assert_eq!(alu(MathOp::Add, 0xFF, 0x01, F8(0)), (0x00, F8(Z | H | C)));
    assert_eq!(alu(MathOp::Add, 0x0F, 0x01, F8(0)), (0x10, F8(H)));
    assert_eq!(alu(MathOp::Add, 0x0F, 0x0F, F8(0)), (0x1E, F8(H)));
    assert_eq!(alu(MathOp::Add, 0xF0, 0x10, F8(0)), (0x00, F8(Z | C)));
    assert_eq!(alu(MathOp::Add, 0x12, 0x34, F8(Z | N | H | C)), (0x46, F8(0)));
}

#[test]
fn add_with_carry_at_the_boundaries() {
    assert_eq!(alu(MathOp::Adc, 0x00, 0x00, F8(0)), (0x00, F8(Z)));
    assert_eq!(alu(MathOp::Adc, 0x00, 0x00, F8(C)), (0x01, F8(0)));
    assert_eq!(alu(MathOp::Adc, 0xFF, 0x00, F8(C)), (0x00, F8(Z | H | C)));
    assert_eq!(alu(MathOp::Adc, 0x00, 0xFF, F8(C)), (0x00, F8(Z | H | C)));
    assert_eq!(alu(MathOp::Adc, 0x0F, 0x00, F8(C)), (0x10, F8(H)));
    assert_eq!(alu(MathOp::Adc, 0xFF, 0xFF, F8(C)), (0xFF, F8(H | C)));
}

#[test]
fn subtract_at_the_boundaries() {
    assert_eq!(alu(MathOp::Sub, 0x00, 0x00, F8(0)), (0x00, F8(Z | N)));
    assert_eq!(alu(MathOp::Sub, 0x00, 0x01, F8(0)), (0xFF, F8(N | H | C)));
    assert_eq!(alu(MathOp::Sub, 0x10, 0x01, F8(0)), (0x0F, F8(N | H)));
    assert_eq!(alu(MathOp::Sub, 0x01, 0x10, F8(0)), (0xF1, F8(N | C)));
    assert_eq!(alu(MathOp::Sub, 0x42, 0x42, F8(C)), (0x00, F8(Z | N)));
}

#[test]
fn subtract_with_carry_at_the_boundaries() {
    assert_eq!(alu(MathOp::Sbc, 0x00, 0x00, F8(C)), (0xFF, F8(N | H | C)));
    assert_eq!(alu(MathOp::Sbc, 0x10, 0x0F, F8(C)), (0x00, F8(Z | N | H)));
    assert_eq!(alu(MathOp::Sbc, 0x10, 0x0F, F8(0)), (0x01, F8(N | H)));
    assert_eq!(alu(MathOp::Sbc, 0x00, 0xFF, F8(C)), (0x00, F8(Z | N | H | C)));
    assert_eq!(alu(MathOp::Sbc, 0x05, 0x02, F8(C)), (0x02, F8(N)));
}

#[test]
fn compare_keeps_the_accumulator() {
    assert_eq!(alu(MathOp::Cp, 0x05, 0x05, F8(0)), (0x05, F8(Z | N)));
    assert_eq!(alu(MathOp::Cp, 0x05, 0x06, F8(0)), (0x05, F8(N | H | C)));
    assert_eq!(alu(MathOp::Cp, 0x10, 0x01, F8(C)), (0x10, F8(N | H)));
}

#[test]
fn logical_operations_and_their_flags() {
    assert_eq!(alu(MathOp::And, 0xF0, 0x0F, F8(N | C)), (0x00, F8(Z | H)));
    assert_eq!(alu(MathOp::And, 0xF3, 0x35, F8(0)), (0x31, F8(H)));
    assert_eq!(alu(MathOp::Or, 0x00, 0x00, F8(N | H | C)), (0x00, F8(Z)));
    assert_eq!(alu(MathOp::Or, 0xF0, 0x0F, F8(N | H | C)), (0xFF, F8(0)));
    assert_eq!(alu(MathOp::Xor, 0xAA, 0xAA, F8(N | H | C)), (0x00, F8(Z)));
    assert_eq!(alu(MathOp::Xor, 0xAA, 0x55, F8(Z)), (0xFF, F8(0)));
}

#[test]
fn arithmetic_keeps_the_lower_bits_of_the_flag_byte() {
    for op in [
        MathOp::Add,
        MathOp::Adc,
        MathOp::Sub,
        MathOp::Sbc,
        MathOp::And,
        MathOp::Xor,
        MathOp::Or,
        MathOp::Cp,
    ] {
        for low in [0x00u8, 0x05, 0x0F] {
            let (_, f) = alu(op, 0x3C, 0xC7, F8(0xF0 | low));
            assert_eq!(f.0 & 0x0F, low);
        }
    }
}

#[test]
fn arithmetic_on_a_register_and_on_memory() {
    let mut gba = console(&[]);
    gba.cpu.registers.a = 0x0F;
    gba.cpu.registers.b = 0x01;
    assert_eq!(gba.execute(Opcode::MathR8(MathOp::Add, OpcodeRegister8::B)), 1);
    assert_eq!(gba.cpu.registers.a, 0x10);
    assert_eq!(gba.cpu.registers.f, F8(H));
    gba.cpu.registers.set_r16(Register16::HL, 0xC000);
    gba.mem.set_u8(0xC000, 0x10);
    assert_eq!(gba.execute(Opcode::MathR8(MathOp::Sub, OpcodeRegister8::HL)), 2);
    assert_eq!(gba.cpu.registers.a, 0x00);
    assert_eq!(gba.cpu.registers.f, F8(Z | N));
    assert_eq!(gba.mem.get_u8(0xC000), 0x10);
}

#[test]
fn arithmetic_on_an_immediate() {
    let mut gba = console(&[0x01, 0xFF]);
    gba.cpu.registers.a = 0xFF;
    assert_eq!(gba.execute(Opcode::MathImm8(MathOp::Add)), 2);
    assert_eq!(gba.cpu.registers.a, 0x00);
    assert_eq!(gba.cpu.registers.f, F8(Z | H | C));
    assert_eq!(gba.cpu.registers.pc, 1);
    assert_eq!(gba.execute(Opcode::MathImm8(MathOp::Cp)), 2);
    assert_eq!(gba.cpu.registers.a, 0x00);
    assert_eq!(gba.cpu.registers.f, F8(N | H | C));
    assert_eq!(gba.cpu.registers.pc, 2);
}

#[test]
fn push_then_pop_gives_the_word_back() {
    let mut gba = console(&[]);
    gba.cpu.registers.sp = 0xFFFE;
    assert_eq!(gba.push(0x1234), 2);
    assert_eq!(gba.cpu.registers.sp, 0xFFFC);
    assert_eq!(gba.mem.get_u8(0xFFFC), 0x34);
    assert_eq!(gba.mem.get_u8(0xFFFD), 0x12);
    assert_eq!(gba.pop(), (0x1234, 2));
    assert_eq!(gba.cpu.registers.sp, 0xFFFE);
}

#[test]
fn the_stack_is_last_in_first_out() {
    let mut gba = console(&[]);
    gba.cpu.registers.sp = 0xE000;
    gba.push(0xAAAA);
    gba.push(0xBBBB);
    assert_eq!(gba.cpu.registers.sp, 0xDFFC);
    assert_eq!(gba.pop().0, 0xBBBB);
    assert_eq!(gba.pop().0, 0xAAAA);
    assert_eq!(gba.cpu.registers.sp, 0xE000);
}

#[test]
fn the_stack_pointer_wraps() {
    let mut gba = console(&[]);
    gba.cpu.registers.sp = 0x0000;
    gba.push(0xCAFE);
    assert_eq!(gba.cpu.registers.sp, 0xFFFE);
    assert_eq!(gba.pop().0, 0xCAFE);
    assert_eq!(gba.cpu.registers.sp, 0x0000);
}

#[test]
fn push_and_pop_of_a_register() {
    let mut gba = console(&[]);
    gba.cpu.registers.sp = 0xFFFE;
    gba.cpu.registers.set_r16(Register16::BC, 0x1234);
    assert_eq!(gba.execute(Opcode::PushR16(OpcodeRegister16::BC)), 4);
    assert_eq!(gba.cpu.registers.sp, 0xFFFC);
    assert_eq!(gba.mem.get_u16(0xFFFC), 0x1234);
    assert_eq!(gba.execute(Opcode::PopR16(OpcodeRegister16::DE)), 3);
    assert_eq!(gba.cpu.registers.get_r16(Register16::DE), 0x1234);
    assert_eq!(gba.cpu.registers.sp, 0xFFFE);
}

#[test]
fn pop_into_af_leaves_the_lower_flag_bits_zero() {
    let mut gba = console(&[]);
    gba.cpu.registers.sp = 0xFFFE;
    gba.push(0x12FF);
    gba.execute(Opcode::PopR16(OpcodeRegister16::AF));
    assert_eq!(gba.cpu.registers.a, 0x12);
    assert_eq!(gba.cpu.registers.f, F8(0xF0));
}

#[test]
fn conditional_jump_not_taken() {
    let mut gba = console(&[0x00, 0xC0]);
    let cycles = gba.execute(Opcode::JumpImm16(JumpCondition::SetFlag(Flags::Zero)));
    assert_eq!(gba.cpu.registers.pc, 2);
    assert_eq!(cycles, 3);
    let mut gba = console(&[0x00, 0xC0]);
    gba.cpu.registers.f = F8(C);
    let cycles = gba.execute(Opcode::JumpImm16(JumpCondition::UnsetFlag(Flags::Carry)));
    assert_eq!(gba.cpu.registers.pc, 2);
    assert_eq!(cycles, 3);
}

#[test]
fn conditional_jump_taken() {
    let mut gba = console(&[0x00, 0xC0]);
    gba.cpu.registers.f = F8(Z);
    let cycles = gba.execute(Opcode::JumpImm16(JumpCondition::SetFlag(Flags::Zero)));
    assert_eq!(gba.cpu.registers.pc, 0xC000);
    assert_eq!(cycles, 4);
    let mut gba = console(&[0x34, 0x12]);
    let cycles = gba.execute(Opcode::JumpImm16(JumpCondition::UnsetFlag(Flags::Carry)));
    assert_eq!(gba.cpu.registers.pc, 0x1234);
    assert_eq!(cycles, 4);
    let mut gba = console(&[0x34, 0x12]);
    let cycles = gba.execute(Opcode::JumpImm16(JumpCondition::Always));
    assert_eq!(gba.cpu.registers.pc, 0x1234);
    assert_eq!(cycles, 4);
}

#[test]
fn jump_function_by_itself() {
    let mut gba = console(&[]);
    assert_eq!(gba.jump(0x1234, JumpCondition::SetFlag(Flags::Carry)), 0);
    assert_eq!(gba.cpu.registers.pc, 0);
    assert_eq!(gba.jump(0x1234, JumpCondition::UnsetFlag(Flags::Carry)), 1);
    assert_eq!(gba.cpu.registers.pc, 0x1234);
    assert_eq!(gba.jump(0x4321, JumpCondition::Always), 1);
    assert_eq!(gba.cpu.registers.pc, 0x4321);
}

#[test]
fn relative_jump_forward_backward_and_not_taken() {
    let mut gba = console(&[0x05]);
    assert_eq!(gba.execute(Opcode::JumpOffImm8(JumpCondition::Always)), 3);
    assert_eq!(gba.cpu.registers.pc, 0x0006);
    let mut gba = console(&[0xFE]);
    assert_eq!(gba.execute(Opcode::JumpOffImm8(JumpCondition::UnsetFlag(Flags::Zero))), 3);
    assert_eq!(gba.cpu.registers.pc, 0xFFFF);
    let mut gba = console(&[0xFE]);
    assert_eq!(gba.execute(Opcode::JumpOffImm8(JumpCondition::SetFlag(Flags::Zero))), 2);
    assert_eq!(gba.cpu.registers.pc, 0x0001);
}

#[test]
fn call_taken_and_not_taken() {
    let mut gba = console(&[0x00, 0xD0]);
    gba.cpu.registers.sp = 0xFFFE;
    assert_eq!(gba.execute(Opcode::CallImm16(JumpCondition::Always)), 6);
    assert_eq!(gba.cpu.registers.pc, 0xD000);
    assert_eq!(gba.cpu.registers.sp, 0xFFFC);
    assert_eq!(gba.mem.get_u16(0xFFFC), 0x0002);
    let mut gba = console(&[0x00, 0xD0]);
    gba.cpu.registers.sp = 0xFFFE;
    assert_eq!(gba.execute(Opcode::CallImm16(JumpCondition::SetFlag(Flags::Zero))), 3);
    assert_eq!(gba.cpu.registers.pc, 0x0002);
    assert_eq!(gba.cpu.registers.sp, 0xFFFE);
}

#[test]
fn call_function_by_itself() {
    let mut gba = console(&[]);
    gba.cpu.registers.sp = 0xD000;
    gba.cpu.registers.pc = 0x0150;
    assert_eq!(gba.call(0x4000, JumpCondition::SetFlag(Flags::Carry)), 0);
    assert_eq!(gba.cpu.registers.pc, 0x0150);
    assert_eq!(gba.call(0x4000, JumpCondition::UnsetFlag(Flags::Carry)), 3);
    assert_eq!(gba.cpu.registers.pc, 0x4000);
    assert_eq!(gba.cpu.registers.sp, 0xCFFE);
    assert_eq!(gba.mem.get_u16(0xCFFE), 0x0150);
}

#[test]
fn return_taken_and_not_taken() {
    let mut gba = console(&[]);
    gba.cpu.registers.sp = 0xFFFE;
    gba.push(0x0150);
    assert_eq!(gba.execute(Opcode::Return(JumpCondition::SetFlag(Flags::Carry))), 2);
    assert_eq!(gba.cpu.registers.pc, 0);
    assert_eq!(gba.cpu.registers.sp, 0xFFFC);
    assert_eq!(gba.execute(Opcode::Return(JumpCondition::UnsetFlag(Flags::Carry))), 5);
    assert_eq!(gba.cpu.registers.pc, 0x0150);
    assert_eq!(gba.cpu.registers.sp, 0xFFFE);
    gba.push(0x0200);
    assert_eq!(gba.execute(Opcode::Return(JumpCondition::Always)), 5);
    assert_eq!(gba.cpu.registers.pc, 0x0200);
}

#[test]
fn call_then_return_comes_back() {
    let mut gba = console(&[0xCD, 0x00, 0xC0]);
    gba.cpu.registers.sp = 0xFFFE;
    gba.mem.set_u8(0xC000, 0xC9);
    assert_eq!(gba.step(), 6);
    assert_eq!(gba.cpu.registers.pc, 0xC000);
    assert_eq!(gba.step(), 5);
    assert_eq!(gba.cpu.registers.pc, 0x0003);
    assert_eq!(gba.cpu.registers.sp, 0xFFFE);
}

#[test]
fn return_from_interrupt_enables_interrupts() {
    let mut gba = console(&[]);
    gba.cpu.registers.sp = 0xFFFE;
    gba.push(0x0040);
    assert_eq!(gba.execute(Opcode::ReturnInterupt), 4);
    assert_eq!(gba.cpu.registers.pc, 0x0040);
    assert_eq!(gba.cpu.registers.sp, 0xFFFE);
    assert_eq!(gba.cpu.ime, 1);
}

#[test]
fn restart_pushes_and_jumps() {
    let mut gba = console(&[]);
    gba.cpu.registers.sp = 0xFFFE;
    gba.cpu.registers.pc = 0x0151;
    assert_eq!(gba.execute(Opcode::Restart(0x28)), 4);
    assert_eq!(gba.cpu.registers.pc, 0x0028);
    assert_eq!(gba.cpu.registers.sp, 0xFFFC);
    assert_eq!(gba.mem.get_u16(0xFFFC), 0x0151);
}

#[test]
fn interrupt_switch_and_noop() {
    let mut gba = console(&[]);
    assert_eq!(gba.execute(Opcode::EnableInterrupts), 1);
    assert_eq!(gba.cpu.ime, 1);
    assert_eq!(gba.execute(Opcode::DisableInterrupts), 1);
    assert_eq!(gba.cpu.ime, 0);
    let before = gba.cpu;
    assert_eq!(gba.execute(Opcode::Noop), 1);
    assert_eq!(gba.cpu, before);
}

#[test]
fn load_between_registers_and_memory() {
    let mut gba = console(&[]);
    gba.cpu.registers.c = 0x42;
    assert_eq!(gba.execute(Opcode::LoadR8(OpcodeRegister8::B, OpcodeRegister8::C)), 1);
    assert_eq!(gba.cpu.registers.b, 0x42);
    gba.cpu.registers.set_r16(Register16::HL, 0xC000);
    gba.mem.set_u8(0xC000, 0x99);
    assert_eq!(gba.execute(Opcode::LoadR8(OpcodeRegister8::A, OpcodeRegister8::HL)), 2);
    assert_eq!(gba.cpu.registers.a, 0x99);
    gba.cpu.registers.set_r16(Register16::HL, 0xC010);
    assert_eq!(gba.execute(Opcode::LoadR8(OpcodeRegister8::HL, OpcodeRegister8::B)), 2);
    assert_eq!(gba.mem.get_u8(0xC010), 0x42);
    assert_eq!(gba.execute(Opcode::LoadR8(OpcodeRegister8::HL, OpcodeRegister8::HL)), 3);
    assert_eq!(gba.mem.get_u8(0xC010), 0x42);
    assert_eq!(gba.execute(Opcode::LoadR8(OpcodeRegister8::H, OpcodeRegister8::HL)), 2);
    assert_eq!(gba.cpu.registers.h, 0x42);
    assert_eq!(gba.cpu.registers.l, 0x10);
}

#[test]
fn load_an_immediate_byte() {
    let mut gba = console(&[0x05, 0x77]);
    assert_eq!(gba.execute(Opcode::LoadImm8(OpcodeRegister8::A)), 2);
    assert_eq!(gba.cpu.registers.a, 0x05);
    assert_eq!(gba.cpu.registers.pc, 1);
    gba.cpu.registers.set_r16(Register16::HL, 0xFF80);
    assert_eq!(gba.execute(Opcode::LoadImm8(OpcodeRegister8::HL)), 3);
    assert_eq!(gba.mem.get_u8(0xFF80), 0x77);
    assert_eq!(gba.cpu.registers.pc, 2);
}

#[test]
fn load_through_a_register_pair() {
    let mut gba = console(&[]);
    gba.cpu.registers.a = 0x77;
    gba.cpu.registers.set_r16(Register16::HL, 0xC000);
    let op = Opcode::LoadIndR16(OpcodeIndirectRegister16::HLInc, LoadDirection::Memory);
    assert_eq!(gba.execute(op), 3);
    assert_eq!(gba.mem.get_u8(0xC000), 0x77);
    assert_eq!(gba.cpu.registers.get_r16(Register16::HL), 0xC001);
    gba.mem.set_u8(0xC001, 0x12);
    let op = Opcode::LoadIndR16(OpcodeIndirectRegister16::HLDec, LoadDirection::Accumulator);
    assert_eq!(gba.execute(op), 3);
    assert_eq!(gba.cpu.registers.a, 0x12);
    assert_eq!(gba.cpu.registers.get_r16(Register16::HL), 0xC000);
    gba.cpu.registers.set_r16(Register16::BC, 0xC100);
    let op = Opcode::LoadIndR16(OpcodeIndirectRegister16::BC, LoadDirection::Memory);
    assert_eq!(gba.execute(op), 3);
    assert_eq!(gba.mem.get_u8(0xC100), 0x12);
    assert_eq!(gba.cpu.registers.get_r16(Register16::BC), 0xC100);
    gba.cpu.registers.set_r16(Register16::DE, 0xC000);
    let op = Opcode::LoadIndR16(OpcodeIndirectRegister16::DE, LoadDirection::Accumulator);
    assert_eq!(gba.execute(op), 3);
    assert_eq!(gba.cpu.registers.a, 0x77);
}

#[test]
fn hl_wraps_when_it_moves() {
    let mut gba = console(&[]);
    gba.cpu.registers.set_r16(Register16::HL, 0xFFFF);
    let op = Opcode::LoadIndR16(OpcodeIndirectRegister16::HLInc, LoadDirection::Accumulator);
    gba.execute(op);
    assert_eq!(gba.cpu.registers.get_r16(Register16::HL), 0x0000);
    let op = Opcode::LoadIndR16(OpcodeIndirectRegister16::HLDec, LoadDirection::Accumulator);
    gba.execute(op);
    assert_eq!(gba.cpu.registers.get_r16(Register16::HL), 0xFFFF);
}

#[test]
fn load_through_a_port() {
    let mut gba = console(&[0x80, 0x80]);
    gba.cpu.registers.a = 0x3C;
    assert_eq!(gba.execute(Opcode::LoadIndOffImm8(LoadDirection::Memory)), 3);
    assert_eq!(gba.mem.get_u8(0xFF80), 0x3C);
    assert_eq!(gba.cpu.registers.pc, 1);
    gba.cpu.registers.a = 0x00;
    assert_eq!(gba.execute(Opcode::LoadIndOffImm8(LoadDirection::Accumulator)), 3);
    assert_eq!(gba.cpu.registers.a, 0x3C);
    gba.cpu.registers.c = 0x10;
    gba.cpu.registers.a = 0x5A;
    assert_eq!(gba.execute(Opcode::LoadIndOffRegC(LoadDirection::Memory)), 2);
    assert_eq!(gba.mem.get_u8(0xFF10), 0x5A);
    gba.cpu.registers.a = 0x00;
    assert_eq!(gba.execute(Opcode::LoadIndOffRegC(LoadDirection::Accumulator)), 2);
    assert_eq!(gba.cpu.registers.a, 0x5A);
}

#[test]
fn load_through_an_immediate_address() {
    let mut gba = console(&[0x34, 0xC2, 0x34, 0xC2]);
    gba.cpu.registers.a = 0xA7;
    assert_eq!(gba.execute(Opcode::LoadIndImm16(LoadDirection::Memory)), 4);
    assert_eq!(gba.mem.get_u8(0xC234), 0xA7);
    assert_eq!(gba.cpu.registers.pc, 2);
    gba.cpu.registers.a = 0x00;
    assert_eq!(gba.execute(Opcode::LoadIndImm16(LoadDirection::Accumulator)), 4);
    assert_eq!(gba.cpu.registers.a, 0xA7);
    assert_eq!(gba.cpu.registers.pc, 4);
}

#[test]
fn load_an_immediate_word() {
    let mut gba = console(&[0x34, 0x12, 0xFF, 0x12]);
    assert_eq!(gba.execute(Opcode::LoadImm16(OpcodeRegister16::BC)), 3);
    assert_eq!(gba.cpu.registers.get_r16(Register16::BC), 0x1234);
    assert_eq!(gba.cpu.registers.b, 0x12);
    assert_eq!(gba.cpu.registers.c, 0x34);
    assert_eq!(gba.cpu.registers.pc, 2);
    assert_eq!(gba.execute(Opcode::LoadImm16(OpcodeRegister16::AF)), 3);
    assert_eq!(gba.cpu.registers.get_r16(Register16::AF), 0x12F0);
}

#[test]
fn store_the_stack_pointer() {
    let mut gba = console(&[0x00, 0xC0]);
    gba.cpu.registers.sp = 0xABCD;
    assert_eq!(gba.execute(Opcode::LoadIndImm16SP), 5);
    assert_eq!(gba.mem.get_u8(0xC000), 0xCD);
    assert_eq!(gba.mem.get_u8(0xC001), 0xAB);
    assert_eq!(gba.cpu.registers.pc, 2);
    gba.cpu.registers.set_r16(Register16::HL, 0xDFF0);
    assert_eq!(gba.execute(Opcode::LoadSPHL), 2);
    assert_eq!(gba.cpu.registers.sp, 0xDFF0);
}

#[test]
fn stack_pointer_and_offset_set_flags_only() {
    let mut gba = console(&[0x01, 0x01]);
    gba.cpu.registers.sp = 0xC00F;
    gba.cpu.registers.f = F8(Z | N | H | C);
    gba.cpu.registers.set_r16(Register16::HL, 0x1234);
    assert_eq!(gba.execute(Opcode::LoadHLOffSp), 3);
    assert_eq!(gba.cpu.registers.f, F8(H | C));
    assert_eq!(gba.cpu.registers.get_r16(Register16::HL), 0x1234);
    assert_eq!(gba.cpu.registers.sp, 0xC00F);
    assert_eq!(gba.cpu.registers.pc, 1);
    gba.cpu.registers.sp = 0xFFFF;
    gba.cpu.registers.f = F8(0);
    assert_eq!(gba.execute(Opcode::LoadHLOffSp), 3);
    assert_eq!(gba.cpu.registers.f, F8(H | C));
    gba.cpu.registers.pc = 0;
    gba.cpu.registers.sp = 0xC000;
    gba.cpu.registers.f = F8(Z | N | H | 0x0F);
    assert_eq!(gba.execute(Opcode::LoadHLOffSp), 3);
    assert_eq!(gba.cpu.registers.f, F8(0));
}

#[test]
fn increment_a_byte() {
    let mut gba = console(&[]);
    gba.cpu.registers.b = 0x0F;
    gba.cpu.registers.f = F8(Z | N | H | C);
    assert_eq!(gba.execute(Opcode::IncR8(OpcodeRegister8::B)), 1);
    assert_eq!(gba.cpu.registers.b, 0x10);
    assert_eq!(gba.cpu.registers.f, F8(H | C));
    gba.cpu.registers.b = 0x00;
    gba.cpu.registers.f = F8(0);
    gba.execute(Opcode::IncR8(OpcodeRegister8::B));
    assert_eq!(gba.cpu.registers.b, 0x01);
    assert_eq!(gba.cpu.registers.f, F8(Z));
    gba.cpu.registers.b = 0xFF;
    gba.execute(Opcode::IncR8(OpcodeRegister8::B));
    assert_eq!(gba.cpu.registers.b, 0x00);
    assert_eq!(gba.cpu.registers.f, F8(H));
    gba.cpu.registers.set_r16(Register16::HL, 0xC000);
    gba.mem.set_u8(0xC000, 0x07);
    assert_eq!(gba.execute(Opcode::IncR8(OpcodeRegister8::HL)), 3);
    assert_eq!(gba.mem.get_u8(0xC000), 0x08);
    assert_eq!(gba.cpu.registers.f, F8(0));
}

#[test]
fn decrement_a_byte() {
    let mut gba = console(&[]);
    gba.cpu.registers.b = 0x10;
    gba.cpu.registers.f = F8(N);
    assert_eq!(gba.execute(Opcode::DecR8(OpcodeRegister8::B)), 1);
    assert_eq!(gba.cpu.registers.b, 0x0F);
    assert_eq!(gba.cpu.registers.f, F8(H));
    gba.cpu.registers.b = 0x01;
    gba.execute(Opcode::DecR8(OpcodeRegister8::B));
    assert_eq!(gba.cpu.registers.b, 0x00);
    assert_eq!(gba.cpu.registers.f, F8(0));
    gba.execute(Opcode::DecR8(OpcodeRegister8::B));
    assert_eq!(gba.cpu.registers.b, 0xFF);
    assert_eq!(gba.cpu.registers.f, F8(Z | H));
    gba.cpu.registers.set_r16(Register16::HL, 0xC000);
    gba.mem.set_u8(0xC000, 0x21);
    assert_eq!(gba.execute(Opcode::DecR8(OpcodeRegister8::HL)), 3);
    assert_eq!(gba.mem.get_u8(0xC000), 0x20);
    assert_eq!(gba.cpu.registers.f, F8(0));
}

#[test]
fn carry_flag_instructions() {
    let mut gba = console(&[]);
    gba.cpu.registers.f = F8(N | H | C);
    assert_eq!(gba.execute(Opcode::ComplementCarryFlag), 1);
    assert_eq!(gba.cpu.registers.f, F8(0));
    gba.cpu.registers.f = F8(Z);
    gba.execute(Opcode::ComplementCarryFlag);
    assert_eq!(gba.cpu.registers.f, F8(Z | C));
    gba.cpu.registers.f = F8(N | H);
    assert_eq!(gba.execute(Opcode::SetCarryFlag), 1);
    assert_eq!(gba.cpu.registers.f, F8(C));
}

#[test]
fn complement_the_accumulator() {
    let mut gba = console(&[]);
    gba.cpu.registers.a = 0x35;
    gba.cpu.registers.f = F8(Z);
    assert_eq!(gba.execute(Opcode::ComplementAccumulator), 1);
    assert_eq!(gba.cpu.registers.a, 0xCA);
    assert_eq!(gba.cpu.registers.f, F8(Z | N | H));
}

#[test]
fn decimal_adjust() {
    let mut gba = console(&[]);
    gba.cpu.registers.a = 0x45;
    assert_eq!(gba.execute(Opcode::DecimalAdjustAccumulator), 1);
    assert_eq!(gba.cpu.registers.a, 0x45);
    assert_eq!(gba.cpu.registers.f, F8(0));
    gba.cpu.registers.a = 0x66;
    gba.cpu.registers.f = F8(H | C);
    gba.execute(Opcode::DecimalAdjustAccumulator);
    assert_eq!(gba.cpu.registers.a, 0x00);
    assert_eq!(gba.cpu.registers.f, F8(Z | C));
    gba.cpu.registers.a = 0x9A;
    gba.cpu.registers.f = F8(N);
    gba.execute(Opcode::DecimalAdjustAccumulator);
    assert_eq!(gba.cpu.registers.a, 0x00);
    assert_eq!(gba.cpu.registers.f, F8(Z | N | C));
    gba.cpu.registers.a = 0x12;
    gba.cpu.registers.f = F8(N | H);
    gba.execute(Opcode::DecimalAdjustAccumulator);
    assert_eq!(gba.cpu.registers.a, 0x18);
    assert_eq!(gba.cpu.registers.f, F8(N));
}

#[test]
fn increment_and_decrement_a_pair() {
    let mut gba = console(&[]);
    gba.cpu.registers.set_r16(Register16::BC, 0xFFFF);
    gba.cpu.registers.f = F8(Z | C);
    assert_eq!(gba.execute(Opcode::IncR16(OpcodeRegister16::BC)), 2);
    assert_eq!(gba.cpu.registers.get_r16(Register16::BC), 0x0000);
    assert_eq!(gba.cpu.registers.f, F8(Z | C));
    assert_eq!(gba.execute(Opcode::DecR16(OpcodeRegister16::HL)), 2);
    assert_eq!(gba.cpu.registers.get_r16(Register16::HL), 0xFFFF);
    gba.cpu.registers.set_r16(Register16::DE, 0x12FF);
    gba.execute(Opcode::IncR16(OpcodeRegister16::DE));
    assert_eq!(gba.cpu.registers.get_r16(Register16::DE), 0x1300);
}

#[test]
fn a_step_of_af_leaves_the_lower_flag_bits_zero() {
    let mut gba = console(&[]);
    gba.cpu.registers.set_r16(Register16::AF, 0x1200);
    gba.execute(Opcode::IncR16(OpcodeRegister16::AF));
    assert_eq!(gba.cpu.registers.get_r16(Register16::AF), 0x1200);
    gba.execute(Opcode::DecR16(OpcodeRegister16::AF));
    assert_eq!(gba.cpu.registers.get_r16(Register16::AF), 0x11F0);
}

#[test]
fn add_a_pair_to_hl() {
    let mut gba = console(&[]);
    gba.cpu.registers.set_r16(Register16::HL, 0x0F00);
    gba.cpu.registers.set_r16(Register16::BC, 0x0100);
    gba.cpu.registers.f = F8(Z | N);
    assert_eq!(gba.execute(Opcode::AddR16(OpcodeRegister16::BC)), 2);
    assert_eq!(gba.cpu.registers.get_r16(Register16::HL), 0x1000);
    assert_eq!(gba.cpu.registers.f, F8(Z | H));
    gba.cpu.registers.set_r16(Register16::HL, 0xFFFF);
    gba.cpu.registers.set_r16(Register16::DE, 0x0001);
    gba.cpu.registers.f = F8(0);
    gba.execute(Opcode::AddR16(OpcodeRegister16::DE));
    assert_eq!(gba.cpu.registers.get_r16(Register16::HL), 0x0000);
    assert_eq!(gba.cpu.registers.f, F8(C));
    gba.cpu.registers.set_r16(Register16::HL, 0x8800);
    gba.execute(Opcode::AddR16(OpcodeRegister16::HL));
    assert_eq!(gba.cpu.registers.get_r16(Register16::HL), 0x1000);
    assert_eq!(gba.cpu.registers.f, F8(H | C));
}

#[test]
fn move_the_stack_pointer() {
    let mut gba = console(&[0x01, 0x01, 0xFF, 0x80, 0x08]);
    gba.cpu.registers.sp = 0x000F;
    gba.cpu.registers.f = F8(Z | N | H | C);
    assert_eq!(gba.execute(Opcode::AddSPImm8), 2);
    assert_eq!(gba.cpu.registers.sp, 0x0010);
    assert_eq!(gba.cpu.registers.f, F8(C));
    assert_eq!(gba.cpu.registers.pc, 1);
    gba.cpu.registers.sp = 0xFFFF;
    gba.cpu.registers.f = F8(0);
    gba.execute(Opcode::AddSPImm8);
    assert_eq!(gba.cpu.registers.sp, 0x0000);
    assert_eq!(gba.cpu.registers.f, F8(Z));
    gba.execute(Opcode::AddSPImm8);
    assert_eq!(gba.cpu.registers.sp, 0xFFFF);
    assert_eq!(gba.cpu.registers.f, F8(Z));
    gba.cpu.registers.sp = 0x0100;
    gba.execute(Opcode::AddSPImm8);
    assert_eq!(gba.cpu.registers.sp, 0x0080);
    assert_eq!(gba.cpu.registers.f, F8(0));
    gba.cpu.registers.sp = 0x0000;
    gba.execute(Opcode::AddSPImm8);
    assert_eq!(gba.cpu.registers.sp, 0x0008);
    assert_eq!(gba.cpu.registers.f, F8(H));
    assert_eq!(gba.cpu.registers.pc, 5);
}

#[test]
fn rotate_instructions_shift_and_clear_the_flags() {
    let mut gba = console(&[]);
    gba.cpu.registers.a = 0x81;
    gba.cpu.registers.f = F8(0xFF);
    assert_eq!(gba.execute(Opcode::RotateLeftCircularAccumulator), 1);
    assert_eq!(gba.cpu.registers.a, 0x02);
    assert_eq!(gba.cpu.registers.f, F8(0));
    gba.cpu.registers.a = 0x81;
    gba.cpu.registers.f = F8(C);
    assert_eq!(gba.execute(Opcode::RotateLeftAccumulator), 1);
    assert_eq!(gba.cpu.registers.a, 0x03);
    assert_eq!(gba.cpu.registers.f, F8(0));
    gba.cpu.registers.a = 0x81;
    assert_eq!(gba.execute(Opcode::RotateLeftAccumulator), 1);
    assert_eq!(gba.cpu.registers.a, 0x02);
    gba.cpu.registers.a = 0x81;
    gba.cpu.registers.f = F8(C);
    assert_eq!(gba.execute(Opcode::RotateRightCircularAccumulator), 1);
    assert_eq!(gba.cpu.registers.a, 0x40);
    assert_eq!(gba.cpu.registers.f, F8(0));
    gba.cpu.registers.a = 0x81;
    gba.cpu.registers.f = F8(C);
    assert_eq!(gba.execute(Opcode::RotateRightAccumulator), 1);
    assert_eq!(gba.cpu.registers.a, 0xC0);
    assert_eq!(gba.cpu.registers.f, F8(0));
}

#[test]
fn jump_to_hl() {
    let mut gba = console(&[]);
    gba.cpu.registers.set_r16(Register16::HL, 0x4321);
    assert_eq!(gba.execute(Opcode::JumpHL), 1);
    assert_eq!(gba.cpu.registers.pc, 0x4321);
}

#[test]
fn fetches_read_the_program() {
    let mut gba = console(&[0x11, 0x22, 0x33]);
    assert_eq!(gba.fetch_byte(), (0x11, 1));
    assert_eq!(gba.cpu.registers.pc, 1);
    assert_eq!(gba.fetch_word(), (0x3322, 2));
    assert_eq!(gba.cpu.registers.pc, 3);
    gba.cpu.registers.b = 0x42;
    assert_eq!(gba.fetch_register_8(OpcodeRegister8::B), (0x42, 0));
    gba.cpu.registers.set_r16(Register16::HL, 0x0001);
    assert_eq!(gba.fetch_register_8(OpcodeRegister8::HL), (0x22, 1));
    assert_eq!(gba.fetch_register_16(OpcodeRegister16::HL), (0x0001, 1));
    gba.cpu.registers.set_r16(Register16::AF, 0x12F0);
    assert_eq!(gba.fetch_register_16(OpcodeRegister16::AF), (0x12F0, 1));
}

#[test]
fn the_program_counter_wraps() {
    let mut gba = console(&[0x77]);
    gba.cpu.registers.pc = 0xFFFF;
    gba.mem.set_u8(0xFFFF, 0x3E);
    assert_eq!(gba.fetch_byte(), (0x3E, 1));
    assert_eq!(gba.cpu.registers.pc, 0x0000);
    gba.cpu.registers.pc = 0xFFFF;
    assert_eq!(gba.fetch_word(), (0x773E, 2));
    assert_eq!(gba.cpu.registers.pc, 0x0001);
}

#[test]
fn store_to_an_operand() {
    let mut gba = console(&[]);
    assert_eq!(gba.store_register_8(OpcodeRegister8::E, 0x5A), 0);
    assert_eq!(gba.cpu.registers.e, 0x5A);
    gba.cpu.registers.set_r16(Register16::HL, 0xC000);
    assert_eq!(gba.store_register_8(OpcodeRegister8::HL, 0xA5), 1);
    assert_eq!(gba.mem.get_u8(0xC000), 0xA5);
}

#[test]
fn condition_tests() {
    let mut gba = console(&[]);
    gba.cpu.registers.f = F8(Z);
    assert!(gba.is_taken(JumpCondition::Always));
    assert!(gba.is_taken(JumpCondition::SetFlag(Flags::Zero)));
    assert!(!gba.is_taken(JumpCondition::UnsetFlag(Flags::Zero)));
    assert!(!gba.is_taken(JumpCondition::SetFlag(Flags::Carry)));
    assert!(gba.is_taken(JumpCondition::UnsetFlag(Flags::Carry)));
}

#[test]
fn the_engine_declines_halt_and_stop() {
    let gba = console(&[]);
    assert!(!gba.can_execute(Opcode::Halt));
    assert!(!gba.can_execute(Opcode::Stop));
    assert!(gba.can_execute(Opcode::Noop));
}

#[test]
fn the_engine_declines_writes_to_rom() {
    let mut gba = console(&[]);
    let store = Opcode::LoadR8(OpcodeRegister8::HL, OpcodeRegister8::A);
    let load = Opcode::LoadR8(OpcodeRegister8::A, OpcodeRegister8::HL);
    gba.cpu.registers.set_r16(Register16::HL, 0x1000);
    assert!(!gba.can_execute(store));
    assert!(gba.can_execute(load));
    gba.cpu.registers.set_r16(Register16::HL, 0x7FFF);
    assert!(!gba.can_execute(store));
    assert!(!gba.can_execute(Opcode::IncR8(OpcodeRegister8::HL)));
    gba.cpu.registers.set_r16(Register16::HL, 0x8000);
    assert!(gba.can_execute(store));
    assert!(gba.can_execute(Opcode::IncR8(OpcodeRegister8::HL)));
    gba.cpu.registers.sp = 0x8001;
    assert!(!gba.can_execute(Opcode::PushR16(OpcodeRegister16::BC)));
    assert!(!gba.can_execute(Opcode::Restart(0x08)));
    gba.cpu.registers.sp = 0x0001;
    assert!(!gba.can_execute(Opcode::PushR16(OpcodeRegister16::BC)));
    gba.cpu.registers.sp = 0x0000;
    assert!(gba.can_execute(Opcode::PushR16(OpcodeRegister16::BC)));
}

#[test]
fn the_engine_declines_unusable_memory() {
    let mut gba = console(&[0x4C, 0xA0, 0xFE]);
    let store = Opcode::LoadR8(OpcodeRegister8::HL, OpcodeRegister8::A);
    let load = Opcode::LoadR8(OpcodeRegister8::A, OpcodeRegister8::HL);
    for addr in [0xFEA0u16, 0xFEFF, 0xFF4C, 0xFF7F] {
        gba.cpu.registers.set_r16(Register16::HL, addr);
        assert!(!gba.can_execute(store));
        assert!(!gba.can_execute(load));
        assert!(!gba.can_execute(Opcode::MathR8(MathOp::Add, OpcodeRegister8::HL)));
        gba.cpu.registers.sp = addr;
        assert!(!gba.can_execute(Opcode::PopR16(OpcodeRegister16::BC)));
        assert!(!gba.can_execute(Opcode::ReturnInterupt));
        assert!(!gba.can_execute(Opcode::Return(JumpCondition::Always)));
    }
    assert!(!gba.can_execute(Opcode::LoadIndOffImm8(LoadDirection::Memory)));
    assert!(!gba.can_execute(Opcode::LoadIndOffImm8(LoadDirection::Accumulator)));
    gba.cpu.registers.pc = 1;
    assert!(!gba.can_execute(Opcode::LoadIndImm16(LoadDirection::Accumulator)));
    assert!(!gba.can_execute(Opcode::LoadIndImm16SP));
    gba.cpu.registers.pc = 0xFEA0;
    assert!(!gba.can_execute(Opcode::LoadImm8(OpcodeRegister8::A)));
    assert!(!gba.can_execute(Opcode::MathImm8(MathOp::Add)));
    assert!(!gba.can_execute(Opcode::JumpImm16(JumpCondition::Always)));
    assert!(!gba.can_execute(Opcode::AddSPImm8));
    assert!(!gba.can_step());
    gba.cpu.registers.pc = 0xFE9F;
    assert!(gba.can_execute(Opcode::LoadImm8(OpcodeRegister8::A)));
    assert!(!gba.can_execute(Opcode::LoadImm16(OpcodeRegister16::BC)));
}

#[test]
fn a_call_that_is_not_taken_needs_no_stack() {
    let mut gba = console(&[0x00, 0xC0]);
    gba.cpu.registers.sp = 0x4000;
    assert!(gba.can_execute(Opcode::CallImm16(JumpCondition::SetFlag(Flags::Zero))));
    assert!(!gba.can_execute(Opcode::CallImm16(JumpCondition::UnsetFlag(Flags::Zero))));
    assert!(!gba.can_execute(Opcode::CallImm16(JumpCondition::Always)));
    gba.cpu.registers.sp = 0xFEA0;
    assert!(gba.can_execute(Opcode::Return(JumpCondition::SetFlag(Flags::Zero))));
    assert!(!gba.can_execute(Opcode::Return(JumpCondition::UnsetFlag(Flags::Zero))));
}

#[test]
fn steps_that_cannot_be_made() {
    assert!(!console(&[0xCB]).can_step());
    assert!(!console(&[0xD3]).can_step());
    assert!(!console(&[0x18]).can_step());
    assert!(!console(&[0x10]).can_step());
    assert!(!console(&[0x76]).can_step());
    assert!(!console(&[0x70]).can_step());
    assert!(console(&[0x00]).can_step());
    assert!(console(&[0x3E, 0x05]).can_step());
    assert!(console(&[0x7E]).can_step());
}

#[test]
fn a_short_program() {
    // LD A,0x0F; LD B,A; INC B; ADD A,B; LD (0xC000),A; JP 0x0000
    let mut gba =
        console(&[0x3E, 0x0F, 0x47, 0x04, 0x80, 0xEA, 0x00, 0xC0, 0xC3, 0x00, 0x00]);
    let mut total = 0;
    for _ in 0..6 {
        assert!(gba.can_step());
        total += gba.step();
    }
    assert_eq!(gba.cpu.registers.a, 0x1F);
    assert_eq!(gba.cpu.registers.b, 0x10);
    assert_eq!(gba.mem.get_u8(0xC000), 0x1F);
    assert_eq!(gba.mem.get_u8(0xE000), 0x1F);
    assert_eq!(gba.cpu.registers.pc, 0x0000);
    assert_eq!(gba.cpu.registers.f, F8(0));
    assert_eq!(total, 2 + 1 + 1 + 1 + 4 + 4);
}

#[test]
fn instructions_leave_rom_as_it_is() {
    let program = [0x3E, 0x0F, 0x47, 0x04, 0x80, 0xEA, 0x00, 0xC0, 0xC3, 0x00, 0x00];
    let mut gba = console(&program);
    let before: Vec<u8> = (0u16..0x8000).map(|a| gba.mem.get_u8(a)).collect();
    for _ in 0..12 {
        gba.step();
    }
    let after: Vec<u8> = (0u16..0x8000).map(|a| gba.mem.get_u8(a)).collect();
    assert_eq!(before, after);
}

fn operand_bytes(opcode: Opcode) -> u16 {
    match opcode {
        Opcode::LoadImm8(_)
        | Opcode::LoadIndOffImm8(_)
        | Opcode::LoadHLOffSp
        | Opcode::MathImm8(_)
        | Opcode::AddSPImm8
        | Opcode::JumpOffImm8(_) => 1,
        Opcode::LoadIndImm16(_)
        | Opcode::LoadImm16(_)
        | Opcode::LoadIndImm16SP
        | Opcode::JumpImm16(_)
        | Opcode::CallImm16(_) => 2,
        _ => 0,
    }
}

fn is_jump(opcode: Opcode) -> bool {
    matches!(
        opcode,
        Opcode::JumpImm16(_)
            | Opcode::JumpHL
            | Opcode::JumpOffImm8(_)
            | Opcode::CallImm16(_)
            | Opcode::Return(_)
            | Opcode::ReturnInterupt
            | Opcode::Restart(_)
    )
}

#[test]
fn every_instruction_keeps_what_must_be_kept() {
    let mut executed = 0;
    for byte in 0u8..=255 {
        let opcode = match Opcode::decode(byte) {
            Some(opcode) => opcode,
            None => continue,
        };
        for flags in [0x00u8, 0x10, 0x80, 0xF0] {
            let mut gba = console(&[0x00, 0x80, 0xC0, 0x00]);
            gba.cpu.registers.pc = 1;
            gba.cpu.registers.sp = 0xD000;
            gba.cpu.registers.set_r16(Register16::BC, 0xC1FF);
            gba.cpu.registers.set_r16(Register16::DE, 0xC2FF);
            gba.cpu.registers.set_r16(Register16::HL, 0xCFFF);
            gba.cpu.registers.a = 0x9F;
            gba.cpu.registers.f = F8(flags);
            gba.mem.set_u16(0xD000, 0x1234);
            if !gba.can_execute(opcode) {
                assert!(matches!(opcode, Opcode::Halt | Opcode::Stop));
                continue;
            }
            let rom: Vec<u8> = (0u16..0x8000).step_by(97).map(|a| gba.mem.get_u8(a)).collect();
            let cycles = gba.execute(opcode);
            executed += 1;
            assert_eq!(gba.cpu.registers.f.0 & 0x0F, 0);
            assert!(cycles >= 1 + operand_bytes(opcode) as usize);
            assert!(cycles <= 6);
            if !is_jump(opcode) {
                assert_eq!(gba.cpu.registers.pc, 1 + operand_bytes(opcode));
            }
            let after: Vec<u8> = (0u16..0x8000).step_by(97).map(|a| gba.mem.get_u8(a)).collect();
            assert_eq!(rom, after);
        }
    }
    assert_eq!(executed, 4 * (256 - 15 - 1));
}
