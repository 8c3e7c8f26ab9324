use gbcore::cpu::proc::Cpu;
use gbcore::cpu::register::types::Register16;
use gbcore::cpu::register::types::Register8;
use gbcore::cpu::register::types::F8;
use gbcore::cpu::register::Registers;
use gbcore::word::displace;
use gbcore::word::lower;
use gbcore::word::make_word;
use gbcore::word::upper;

const PAIRS: [(Register16, Register8, Register8); 6] = [
    (Register16::BC, Register8::B, Register8::C),
    (Register16::DE, Register8::D, Register8::E),
    (Register16::HL, Register8::H, Register8::L),
    (Register16::AF, Register8::A, Register8::F),
    (Register16::SP, Register8::SPHigh, Register8::SPLow),
    (Register16::PC, Register8::PCHigh, Register8::PCLow),
];

const SLOTS: [Register8; 12] = [
    Register8::B,
    Register8::C,
    Register8::D,
    Register8::E,
    Register8::H,
    Register8::L,
    Register8::A,
    Register8::F,
    Register8::SPHigh,
    Register8::SPLow,
    Register8::PCHigh,
    Register8::PCLow,
];

#[test]
fn registers_start_zeroed() {
    let regs = Registers::default();
    for slot in SLOTS {
        assert_eq!(regs.get_r8(slot), 0);
    }
    for (pair, _, _) in PAIRS {
        assert_eq!(regs.get_r16(pair), 0);
    }
    let cpu = Cpu::default();
    assert_eq!(cpu.registers, regs);
    assert_eq!(cpu.ime, 0);
    assert_eq!(cpu.cache, 0);
}

#[test]
fn b_and_c_make_bc() {
    let mut regs = Registers::default();
    regs.set_r8(Register8::B, 0x12);
    regs.set_r8(Register8::C, 0x34);
    assert_eq!(regs.get_r16(Register16::BC), 0x1234);
}

#[test]
fn halves_make_every_pair() {
    for (pair, high, low) in PAIRS {
        let mut regs = Registers::default();
        regs.set_r8(high, 0xAB);
        regs.set_r8(low, 0xCD);
        assert_eq!(regs.get_r16(pair), 0xABCD);
        let mut regs = Registers::default();
        regs.set_r8(low, 0xCD);
        regs.set_r8(high, 0xAB);
        assert_eq!(regs.get_r16(pair), 0xABCD);
    }
}

#[test]
fn pair_round_trips() {
    for (pair, high, low) in PAIRS {
        for value in [0x0000u16, 0x0001, 0x00FF, 0x0100, 0x1234, 0x8000, 0xFFFE, 0xFFFF] {
            let mut regs = Registers::default();
            regs.set_r16(pair, value);
            assert_eq!(regs.get_r16(pair), value);
            assert_eq!(regs.get_r8(high), (value >> 8) as u8);
            assert_eq!(regs.get_r8(low), (value & 0xFF) as u8);
        }
    }
}

#[test]
fn pair_write_leaves_the_other_slots() {
    for (pair, high, low) in PAIRS {
        let mut regs = Registers::default();
        for (i, slot) in SLOTS.iter().enumerate() {
            regs.set_r8(*slot, 0x10 + i as u8);
        }
        let before = regs;
        regs.set_r16(pair, 0xFEDC);
        for slot in SLOTS {
            if slot != high && slot != low {
                assert_eq!(regs.get_r8(slot), before.get_r8(slot));
            }
        }
    }
}

#[test]
fn byte_slot_round_trips() {
    for slot in SLOTS {
        let mut regs = Registers::default();
        regs.set_r8(slot, 0x5A);
        assert_eq!(regs.get_r8(slot), 0x5A);
    }
}

#[test]
fn stack_pointer_is_its_own_word() {
    let mut regs = Registers::default();
    regs.set_r16(Register16::SP, 0xFFFE);
    assert_eq!(regs.sp, 0xFFFE);
    assert_eq!(regs.get_r8(Register8::SPHigh), 0xFF);
    assert_eq!(regs.get_r8(Register8::SPLow), 0xFE);
    regs.set_r8(Register8::SPLow, 0x00);
    assert_eq!(regs.sp, 0xFF00);
    regs.set_r16(Register16::PC, 0x0150);
    assert_eq!(regs.pc, 0x0150);
    regs.set_r8(Register8::PCHigh, 0x40);
    assert_eq!(regs.pc, 0x4050);
}

#[test]
fn flag_byte_is_the_lower_half_of_af() {
    let mut regs = Registers::default();
    regs.set_r16(Register16::AF, 0x12F5);
    assert_eq!(regs.a, 0x12);
    assert_eq!(regs.f, F8(0xF5));
    assert_eq!(regs.get_r16(Register16::AF), 0x12F5);
}

#[test]
fn register_names_from_their_places() {
    for (i, slot) in SLOTS.iter().enumerate() {
        assert_eq!(Register8::from_u8(i as u8), *slot);
    }
    for (i, (pair, _, _)) in PAIRS.iter().enumerate() {
        assert_eq!(Register16::from_u8(i as u8), *pair);
    }
}

#[test]
fn words_and_their_halves() {
    assert_eq!(make_word(0x12, 0x34), 0x1234);
    assert_eq!(make_word(0x00, 0xFF), 0x00FF);
    assert_eq!(make_word(0xFF, 0x00), 0xFF00);
    assert_eq!(upper(0x1234), 0x12);
    assert_eq!(lower(0x1234), 0x34);
}

#[test]
fn displacement_is_signed_and_wraps() {
    assert_eq!(displace(0x1000, 0x00), 0x1000);
    assert_eq!(displace(0x1000, 0x7F), 0x107F);
    assert_eq!(displace(0x1000, 0x80), 0x0F80);
    assert_eq!(displace(0x1000, 0xFF), 0x0FFF);
    assert_eq!(displace(0x0000, 0xFF), 0xFFFF);
    assert_eq!(displace(0xFFFF, 0x01), 0x0000);
}
