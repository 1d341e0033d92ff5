use gameboy_core::alu::{
    add16, add8, add_sp, decimal_adjust, decrement8, increment8, reset_bit, rotate, set_bit, sub8,
    test_bit, Rotation,
};
use gameboy_core::cpu::CPU;
use gameboy_core::flags::Flags;
use gameboy_core::instructions::{
    AddHLTarget, ArithTarget, BitPosition, IncDecTarget, Instruction, JumpTest, LoadByteSource,
    LoadByteTarget, LoadIndirectTarget, LoadType, LoadWordTarget, PrefixTarget, RstTarget,
    StackTarget,
};

/// A processor over a cartridge that holds `program`, with the boot ROM
/// switched off and the program counter at `0x0100`.
fn machine(program: &[u8]) -> CPU {
    let bios = vec![0u8; 0x100];
    let mut game = vec![0u8; 0x8000];
    for (i, &byte) in program.iter().enumerate() {
        game[0x0100 + i] = byte;
    }
    let mut cpu = CPU::new(bios, game);
    cpu.bus.set_boot_enabled(false);
    cpu.pc = 0x0100;
    cpu
}

fn flags(zero: bool, subtract: bool, half_carry: bool, carry: bool) -> Flags {
    Flags { zero, subtract, half_carry, carry }
}

#[test]
fn zero_flag_follows_the_result() {
    let clear = Flags::new();
    for a in 0..=255u8 {
        for x in [0x00u8, 0x01, 0x0F, 0x10, 0x7F, 0x80, 0xFF, a, !a, a.wrapping_neg()] {
            for carry in [false, true] {
                let (r, f) = add8(a, x, carry);
                assert_eq!(f.zero, r == 0);
                assert_eq!(r, a.wrapping_add(x).wrapping_add(carry as u8));
                let (r, f) = sub8(a, x, carry);
                assert_eq!(f.zero, r == 0);
                assert_eq!(r, a.wrapping_sub(x).wrapping_sub(carry as u8));
            }
        }
        let (r, f) = increment8(a, clear);
        assert_eq!(f.zero, r == 0);
        let (r, f) = decrement8(a, clear);
        assert_eq!(f.zero, r == 0);
        let (r, f) = decimal_adjust(a, clear);
        assert_eq!(f.zero, r == 0);
    }
}

#[test]
fn adc_takes_the_flags_of_the_whole_sum() {
    // The carry alone crosses the nibble.
    assert_eq!(add8(0x0F, 0x00, true), (0x10, flags(false, false, true, false)));
    // Value and carry together cross the nibble.
    assert_eq!(add8(0x0E, 0x01, true), (0x10, flags(false, false, true, false)));
    // The carry alone crosses the byte.
    assert_eq!(add8(0xFF, 0x00, true), (0x00, flags(true, false, true, true)));
    assert_eq!(add8(0xFF, 0xFF, true), (0xFF, flags(false, false, true, true)));
    assert_eq!(add8(0x00, 0x00, true), (0x01, flags(false, false, false, false)));
    let mut cpu = machine(&[0x88, 0xCE, 0xF0]);
    cpu.registers.a = 0x0F;
    cpu.registers.b = 0x00;
    cpu.registers.f.carry = true;
    assert_eq!(cpu.fetch_execute(), Ok(()));
    assert_eq!(cpu.registers.a, 0x10);
    assert_eq!(cpu.registers.f, flags(false, false, true, false));
    // ADC A,d8 takes two bytes.
    cpu.registers.f.carry = true;
    assert_eq!(cpu.fetch_execute(), Ok(()));
    assert_eq!(cpu.registers.a, 0x01);
    assert_eq!(cpu.registers.f, flags(false, false, false, true));
    assert_eq!(cpu.pc, 0x0103);
}

#[test]
fn sbc_takes_the_flags_of_the_whole_difference() {
    assert_eq!(sub8(0x10, 0x0F, true), (0x00, flags(true, true, true, false)));
    assert_eq!(sub8(0x00, 0x00, true), (0xFF, flags(false, true, true, true)));
    assert_eq!(sub8(0x00, 0xFF, true), (0x00, flags(true, true, true, true)));
    assert_eq!(sub8(0x3B, 0x2A, true), (0x10, flags(false, true, false, false)));
    assert_eq!(sub8(0x3B, 0x4F, true), (0xEB, flags(false, true, true, true)));
    let mut cpu = machine(&[0x98]);
    cpu.registers.a = 0x10;
    cpu.registers.b = 0x0F;
    cpu.registers.f.carry = true;
    assert_eq!(cpu.fetch_execute(), Ok(()));
    assert_eq!(cpu.registers.a, 0x00);
    assert_eq!(cpu.registers.f, flags(true, true, true, false));
}

#[test]
fn sub_and_cp_borrow() {
    assert_eq!(sub8(0x3E, 0x0F, false), (0x2F, flags(false, true, true, false)));
    assert_eq!(sub8(0x3E, 0x40, false), (0xFE, flags(false, true, false, true)));
    let mut cpu = machine(&[0xFE, 0x40]);
    cpu.registers.a = 0x3C;
    assert_eq!(cpu.fetch_execute(), Ok(()));
    assert_eq!(cpu.registers.a, 0x3C);
    assert_eq!(cpu.registers.f, flags(false, true, false, true));
    assert_eq!(cpu.pc, 0x0102);
}

#[test]
fn logic_operations() {
    let mut cpu = machine(&[0xA0, 0xB1, 0xAF, 0xE6, 0x00]);
    cpu.registers.a = 0x5A;
    cpu.registers.b = 0x3F;
    cpu.registers.c = 0x05;
    cpu.registers.f = flags(true, true, false, true);
    assert_eq!(cpu.fetch_execute(), Ok(()));
    assert_eq!(cpu.registers.a, 0x1A);
    assert_eq!(cpu.registers.f, flags(false, false, true, false));
    assert_eq!(cpu.fetch_execute(), Ok(()));
    assert_eq!(cpu.registers.a, 0x1F);
    assert_eq!(cpu.registers.f, flags(false, false, false, false));
    assert_eq!(cpu.fetch_execute(), Ok(()));
    assert_eq!(cpu.registers.a, 0x00);
    assert_eq!(cpu.registers.f, flags(true, false, false, false));
    cpu.registers.a = 0xFF;
    assert_eq!(cpu.fetch_execute(), Ok(()));
    assert_eq!(cpu.registers.a, 0x00);
    assert_eq!(cpu.registers.f, flags(true, false, true, false));
    assert_eq!(cpu.pc, 0x0105);
}

#[test]
fn arithmetic_on_the_byte_at_hl() {
    let mut cpu = machine(&[0x86]);
    cpu.registers.set_hl(0xC010);
    cpu.bus.set_byte(0xC010, 0x12);
    cpu.registers.a = 0x3C;
    assert_eq!(cpu.fetch_execute(), Ok(()));
    assert_eq!(cpu.registers.a, 0x4E);
    assert_eq!(cpu.registers.f, flags(false, false, false, false));
    assert_eq!(cpu.pc, 0x0101);
}

#[test]
fn inc_and_dec_of_bytes_keep_carry() {
    for carry in [false, true] {
        let keep = flags(false, false, false, carry);
        assert_eq!(increment8(0x0F, keep), (0x10, flags(false, false, true, carry)));
        assert_eq!(increment8(0xFF, keep), (0x00, flags(true, false, true, carry)));
        assert_eq!(increment8(0x10, keep), (0x11, flags(false, false, false, carry)));
        assert_eq!(decrement8(0x10, keep), (0x0F, flags(false, true, true, carry)));
        assert_eq!(decrement8(0x01, keep), (0x00, flags(true, true, false, carry)));
        assert_eq!(decrement8(0x00, keep), (0xFF, flags(false, true, true, carry)));
    }
    let mut cpu = machine(&[0x04, 0x25, 0x34, 0x35]);
    cpu.registers.b = 0xFF;
    cpu.registers.f.carry = true;
    assert_eq!(cpu.fetch_execute(), Ok(()));
    assert_eq!(cpu.registers.b, 0x00);
    assert_eq!(cpu.registers.f, flags(true, false, true, true));
    cpu.registers.h = 0xC1;
    assert_eq!(cpu.fetch_execute(), Ok(()));
    assert_eq!(cpu.registers.h, 0xC0);
    assert_eq!(cpu.registers.f, flags(false, true, false, true));
    cpu.registers.l = 0x00;
    cpu.bus.set_byte(0xC000, 0x0F);
    assert_eq!(cpu.fetch_execute(), Ok(()));
    assert_eq!(cpu.bus.read_byte(0xC000), 0x10);
    assert_eq!(cpu.registers.f, flags(false, false, true, true));
    assert_eq!(cpu.fetch_execute(), Ok(()));
    assert_eq!(cpu.bus.read_byte(0xC000), 0x0F);
    assert_eq!(cpu.registers.f, flags(false, true, true, true));
    assert_eq!(cpu.pc, 0x0104);
}

#[test]
fn inc_and_dec_of_words_change_no_flag() {
    let mut cpu = machine(&[0x03, 0x1B, 0x23, 0x3B, 0x33]);
    let before = flags(true, true, true, true);
    cpu.registers.f = before;
    cpu.registers.set_bc(0xFFFF);
    cpu.registers.set_de(0x0000);
    cpu.registers.set_hl(0x00FF);
    cpu.sp = 0x0000;
    assert_eq!(cpu.fetch_execute(), Ok(()));
    assert_eq!(cpu.registers.get_bc(), 0x0000);
    assert_eq!(cpu.fetch_execute(), Ok(()));
    assert_eq!(cpu.registers.get_de(), 0xFFFF);
    assert_eq!(cpu.fetch_execute(), Ok(()));
    assert_eq!(cpu.registers.get_hl(), 0x0100);
    assert_eq!(cpu.fetch_execute(), Ok(()));
    assert_eq!(cpu.sp, 0xFFFF);
    assert_eq!(cpu.fetch_execute(), Ok(()));
    assert_eq!(cpu.sp, 0x0000);
    assert_eq!(cpu.registers.f, before);
    assert_eq!(cpu.pc, 0x0105);
}

#[test]
fn add_hl_keeps_zero() {
    let keep = flags(true, true, false, false);
    assert_eq!(add16(0x8A23, 0x0605, keep), (0x9028, flags(true, false, true, false)));
    assert_eq!(add16(0x8A23, 0x8A23, keep), (0x1446, flags(true, false, true, true)));
    assert_eq!(add16(0xFFFF, 0x0001, Flags::new()), (0x0000, flags(false, false, true, true)));
    assert_eq!(add16(0x0FFF, 0x0001, Flags::new()), (0x1000, flags(false, false, true, false)));
    let mut cpu = machine(&[0x09, 0x29, 0x39]);
    cpu.registers.set_hl(0x8A23);
    cpu.registers.set_bc(0x0605);
    cpu.registers.f.zero = true;
    cpu.registers.f.subtract = true;
    assert_eq!(cpu.fetch_execute(), Ok(()));
    assert_eq!(cpu.registers.get_hl(), 0x9028);
    assert_eq!(cpu.registers.f, flags(true, false, true, false));
    assert_eq!(cpu.registers.get_bc(), 0x0605);
    cpu.registers.set_hl(0x8A23);
    assert_eq!(cpu.fetch_execute(), Ok(()));
    assert_eq!(cpu.registers.get_hl(), 0x1446);
    assert_eq!(cpu.registers.f, flags(true, false, true, true));
    cpu.sp = 0x0001;
    assert_eq!(cpu.fetch_execute(), Ok(()));
    assert_eq!(cpu.registers.get_hl(), 0x1447);
    assert_eq!(cpu.registers.f, flags(true, false, false, false));
    assert_eq!(cpu.pc, 0x0103);
}

#[test]
fn stack_pointer_plus_displacement() {
    assert_eq!(add_sp(0xFFF8, 0x02), (0xFFFA, flags(false, false, false, false)));
    assert_eq!(add_sp(0x00FF, 0x01), (0x0100, flags(false, false, true, true)));
    assert_eq!(add_sp(0x0001, 0xFF), (0x0000, flags(false, false, true, true)));
    assert_eq!(add_sp(0x0000, 0xFF), (0xFFFF, flags(false, false, false, false)));
    assert_eq!(add_sp(0x000F, 0x01), (0x0010, flags(false, false, true, false)));
    assert_eq!(add_sp(0xFFFF, 0x7F), (0x007E, flags(false, false, true, true)));
    let mut cpu = machine(&[0xE8, 0xFE, 0xF8, 0x02]);
    cpu.sp = 0xFFF8;
    cpu.registers.f = flags(true, true, false, false);
    assert_eq!(cpu.fetch_execute(), Ok(()));
    assert_eq!(cpu.sp, 0xFFF6);
    assert_eq!(cpu.registers.f, flags(false, false, true, true));
    assert_eq!(cpu.pc, 0x0102);
    cpu.registers.f.zero = true;
    assert_eq!(cpu.fetch_execute(), Ok(()));
    assert_eq!(cpu.registers.get_hl(), 0xFFF8);
    assert_eq!(cpu.sp, 0xFFF6);
    assert_eq!(cpu.registers.f, flags(false, false, false, false));
    assert_eq!(cpu.pc, 0x0104);
}

#[test]
fn rotations_and_shifts() {
    assert_eq!(rotate(Rotation::LeftCircular, 0x85, false), (0x0B, true));
    assert_eq!(rotate(Rotation::LeftCircular, 0x00, true), (0x00, false));
    assert_eq!(rotate(Rotation::RightCircular, 0x01, false), (0x80, true));
    assert_eq!(rotate(Rotation::RightCircular, 0x3A, true), (0x1D, false));
    assert_eq!(rotate(Rotation::Left, 0x80, false), (0x00, true));
    assert_eq!(rotate(Rotation::Left, 0x11, true), (0x23, false));
    assert_eq!(rotate(Rotation::Right, 0x01, false), (0x00, true));
    assert_eq!(rotate(Rotation::Right, 0x8A, true), (0xC5, false));
    assert_eq!(rotate(Rotation::ShiftLeft, 0x80, true), (0x00, true));
    assert_eq!(rotate(Rotation::ShiftLeft, 0xFF, false), (0xFE, true));
    assert_eq!(rotate(Rotation::ShiftRightArithmetic, 0x8A, false), (0xC5, false));
    assert_eq!(rotate(Rotation::ShiftRightArithmetic, 0x01, true), (0x00, true));
    assert_eq!(rotate(Rotation::ShiftRightLogical, 0x01, false), (0x00, true));
    assert_eq!(rotate(Rotation::ShiftRightLogical, 0xFF, true), (0x7F, true));
    assert_eq!(rotate(Rotation::Swap, 0xF1, true), (0x1F, false));
    assert_eq!(rotate(Rotation::Swap, 0x00, false), (0x00, false));
    for v in 0..=255u8 {
        assert_eq!(rotate(Rotation::LeftCircular, v, false).0, v.rotate_left(1));
        assert_eq!(rotate(Rotation::RightCircular, v, false).0, v.rotate_right(1));
        assert_eq!(rotate(Rotation::ShiftRightArithmetic, v, false).0, ((v as i8) >> 1) as u8);
        assert_eq!(rotate(Rotation::Swap, v, false).0, v.rotate_left(4));
    }
}

#[test]
fn accumulator_rotates_leave_zero_clear() {
    let mut cpu = machine(&[0x07, 0x17, 0x0F, 0x1F]);
    cpu.registers.a = 0x00;
    cpu.registers.f = flags(true, true, true, false);
    assert_eq!(cpu.fetch_execute(), Ok(()));
    assert_eq!(cpu.registers.a, 0x00);
    assert_eq!(cpu.registers.f, flags(false, false, false, false));
    cpu.registers.a = 0x80;
    assert_eq!(cpu.fetch_execute(), Ok(()));
    assert_eq!(cpu.registers.a, 0x00);
    assert_eq!(cpu.registers.f, flags(false, false, false, true));
    cpu.registers.a = 0x01;
    assert_eq!(cpu.fetch_execute(), Ok(()));
    assert_eq!(cpu.registers.a, 0x80);
    assert_eq!(cpu.registers.f, flags(false, false, false, true));
    cpu.registers.a = 0x02;
    assert_eq!(cpu.fetch_execute(), Ok(()));
    assert_eq!(cpu.registers.a, 0x81);
    assert_eq!(cpu.registers.f, flags(false, false, false, false));
    assert_eq!(cpu.pc, 0x0104);
}

#[test]
fn prefixed_rotates_write_the_result_back() {
    // RL B, RR C, SRL D, SLA (HL), SWAP A, SRA E, RLC H, RRC L
    let mut cpu = machine(&[
        0xCB, 0x10, 0xCB, 0x19, 0xCB, 0x3A, 0xCB, 0x26, 0xCB, 0x37, 0xCB, 0x2B,
    ]);
    cpu.registers.b = 0x80;
    assert_eq!(cpu.fetch_execute(), Ok(()));
    assert_eq!(cpu.registers.b, 0x00);
    assert_eq!(cpu.registers.f, flags(true, false, false, true));
    cpu.registers.c = 0x02;
    assert_eq!(cpu.fetch_execute(), Ok(()));
    assert_eq!(cpu.registers.c, 0x81);
    assert_eq!(cpu.registers.f, flags(false, false, false, false));
    cpu.registers.d = 0x01;
    assert_eq!(cpu.fetch_execute(), Ok(()));
    assert_eq!(cpu.registers.d, 0x00);
    assert_eq!(cpu.registers.f, flags(true, false, false, true));
    cpu.registers.set_hl(0xC000);
    cpu.bus.set_byte(0xC000, 0x41);
    assert_eq!(cpu.fetch_execute(), Ok(()));
    assert_eq!(cpu.bus.read_byte(0xC000), 0x82);
    assert_eq!(cpu.registers.f, flags(false, false, false, false));
    cpu.registers.a = 0xF0;
    cpu.registers.f.carry = true;
    assert_eq!(cpu.fetch_execute(), Ok(()));
    assert_eq!(cpu.registers.a, 0x0F);
    assert_eq!(cpu.registers.f, flags(false, false, false, false));
    cpu.registers.e = 0x81;
    assert_eq!(cpu.fetch_execute(), Ok(()));
    assert_eq!(cpu.registers.e, 0xC0);
    assert_eq!(cpu.registers.f, flags(false, false, false, true));
    assert_eq!(cpu.pc, 0x010C);
}

#[test]
fn bit_operations() {
    assert!(test_bit(0x80, BitPosition::B7));
    assert!(!test_bit(0x7F, BitPosition::B7));
    assert!(test_bit(0x01, BitPosition::B0));
    assert_eq!(set_bit(0x00, BitPosition::B3), 0x08);
    assert_eq!(set_bit(0xFF, BitPosition::B3), 0xFF);
    assert_eq!(reset_bit(0xFF, BitPosition::B3), 0xF7);
    assert_eq!(reset_bit(0x00, BitPosition::B3), 0x00);
    // SET 0,B ; RES 0,(HL) ; SET 7,A
    let mut cpu = machine(&[0xCB, 0xC0, 0xCB, 0x86, 0xCB, 0xFF]);
    let before = flags(true, false, true, false);
    cpu.registers.f = before;
    cpu.registers.b = 0x10;
    assert_eq!(cpu.fetch_execute(), Ok(()));
    assert_eq!(cpu.registers.b, 0x11);
    cpu.registers.set_hl(0xC000);
    cpu.bus.set_byte(0xC000, 0xFF);
    assert_eq!(cpu.fetch_execute(), Ok(()));
    assert_eq!(cpu.bus.read_byte(0xC000), 0xFE);
    assert_eq!(cpu.fetch_execute(), Ok(()));
    assert_eq!(cpu.registers.a, 0x80);
    assert_eq!(cpu.registers.f, before);
    assert_eq!(cpu.pc, 0x0106);
}

#[test]
fn flag_instructions() {
    let mut cpu = machine(&[0x2F, 0x37, 0x3F, 0x3F]);
    cpu.registers.a = 0x35;
    cpu.registers.f = flags(true, false, false, false);
    assert_eq!(cpu.fetch_execute(), Ok(()));
    assert_eq!(cpu.registers.a, 0xCA);
    assert_eq!(cpu.registers.f, flags(true, true, true, false));
    assert_eq!(cpu.fetch_execute(), Ok(()));
    assert_eq!(cpu.registers.f, flags(true, false, false, true));
    assert_eq!(cpu.fetch_execute(), Ok(()));
    assert_eq!(cpu.registers.f, flags(true, false, false, false));
    cpu.registers.f = flags(false, true, true, false);
    assert_eq!(cpu.fetch_execute(), Ok(()));
    assert_eq!(cpu.registers.f, flags(false, false, false, true));
}

#[test]
fn push_then_pop_restores_the_pair() {
    for (push, pop, target) in [
        (0xC5u8, 0xC1u8, StackTarget::BC),
        (0xD5, 0xD1, StackTarget::DE),
        (0xE5, 0xE1, StackTarget::HL),
        (0xF5, 0xF1, StackTarget::AF),
    ] {
        let mut cpu = machine(&[push, 0x00, pop]);
        cpu.registers.set_bc(0x1234);
        cpu.registers.set_de(0x5678);
        cpu.registers.set_hl(0x9ABC);
        cpu.registers.set_af(0xDEB0);
        cpu.sp = 0xD000;
        let before = cpu.registers;
        assert_eq!(cpu.fetch_execute(), Ok(()));
        assert_eq!(cpu.sp, 0xCFFE);
        let value = match target {
            StackTarget::BC => 0x1234u16,
            StackTarget::DE => 0x5678,
            StackTarget::HL => 0x9ABC,
            StackTarget::AF => 0xDEB0,
        };
        assert_eq!(cpu.bus.read_byte(0xCFFF), (value >> 8) as u8);
        assert_eq!(cpu.bus.read_byte(0xCFFE), value as u8);
        // Spoil the pair, then pop it back.
        match target {
            StackTarget::BC => cpu.registers.set_bc(0),
            StackTarget::DE => cpu.registers.set_de(0),
            StackTarget::HL => cpu.registers.set_hl(0),
            StackTarget::AF => cpu.registers.set_af(0),
        }
        assert_eq!(cpu.fetch_execute(), Ok(()));
        assert_eq!(cpu.fetch_execute(), Ok(()));
        assert_eq!(cpu.registers, before);
        assert_eq!(cpu.sp, 0xD000);
        assert_eq!(cpu.pc, 0x0103);
    }
}

#[test]
fn push_and_pop_of_any_word() {
    let mut cpu = machine(&[]);
    for value in [0x0000u16, 0x0001, 0x00FF, 0x0100, 0x1234, 0xFFFF] {
        for sp in [0xFFFEu16, 0xC002, 0xE002, 0xE001, 0xE000, 0xFE02, 0x8002, 0xA000, 0x0000] {
            cpu.sp = sp;
            cpu.push(value);
            assert_eq!(cpu.sp, sp.wrapping_sub(2));
            assert_eq!(cpu.pop(), value);
            assert_eq!(cpu.sp, sp);
        }
    }
}

#[test]
fn pop_af_clears_the_low_nibble() {
    let mut cpu = machine(&[0xC5, 0xF1]);
    cpu.registers.set_bc(0x12FF);
    assert_eq!(cpu.fetch_execute(), Ok(()));
    assert_eq!(cpu.fetch_execute(), Ok(()));
    assert_eq!(cpu.registers.a, 0x12);
    assert_eq!(cpu.registers.f, flags(true, true, true, true));
    assert_eq!(cpu.registers.get_af(), 0x12F0);
    assert_eq!(cpu.sp, 0xFFFE);
}

#[test]
fn a_stack_in_rom_keeps_nothing() {
    let mut cpu = machine(&[]);
    cpu.sp = 0x4000;
    cpu.push(0x1234);
    assert_eq!(cpu.sp, 0x3FFE);
    assert_eq!(cpu.pop(), 0x0000);
    assert_eq!(cpu.sp, 0x4000);
}

#[test]
fn byte_loads() {
    // LD B,0x42 ; LD C,B ; LD (HL),C ; LD A,(HL) ; LD (HL),0x99
    let mut cpu = machine(&[0x06, 0x42, 0x48, 0x71, 0x7E, 0x36, 0x99]);
    cpu.registers.set_hl(0xC800);
    assert_eq!(cpu.fetch_execute(), Ok(()));
    assert_eq!(cpu.registers.b, 0x42);
    assert_eq!(cpu.pc, 0x0102);
    assert_eq!(cpu.fetch_execute(), Ok(()));
    assert_eq!(cpu.registers.c, 0x42);
    assert_eq!(cpu.pc, 0x0103);
    assert_eq!(cpu.fetch_execute(), Ok(()));
    assert_eq!(cpu.bus.read_byte(0xC800), 0x42);
    assert_eq!(cpu.fetch_execute(), Ok(()));
    assert_eq!(cpu.registers.a, 0x42);
    assert_eq!(cpu.fetch_execute(), Ok(()));
    assert_eq!(cpu.bus.read_byte(0xC800), 0x99);
    assert_eq!(cpu.pc, 0x0107);
    assert_eq!(cpu.registers.f, Flags::new());
}

#[test]
fn word_loads() {
    // LD BC,0x1234 ; LD SP,0xC100 ; LD (0xC200),SP ; LD HL,0xBEEF ; LD SP,HL
    let mut cpu = machine(&[
        0x01, 0x34, 0x12, 0x31, 0x00, 0xC1, 0x08, 0x00, 0xC2, 0x21, 0xEF, 0xBE, 0xF9,
    ]);
    assert_eq!(cpu.fetch_execute(), Ok(()));
    assert_eq!(cpu.registers.get_bc(), 0x1234);
    assert_eq!(cpu.pc, 0x0103);
    assert_eq!(cpu.fetch_execute(), Ok(()));
    assert_eq!(cpu.sp, 0xC100);
    assert_eq!(cpu.fetch_execute(), Ok(()));
    assert_eq!(cpu.bus.read_byte(0xC200), 0x00);
    assert_eq!(cpu.bus.read_byte(0xC201), 0xC1);
    assert_eq!(cpu.pc, 0x0109);
    assert_eq!(cpu.fetch_execute(), Ok(()));
    assert_eq!(cpu.registers.get_hl(), 0xBEEF);
    assert_eq!(cpu.fetch_execute(), Ok(()));
    assert_eq!(cpu.sp, 0xBEEF);
    assert_eq!(cpu.pc, 0x010D);
}

#[test]
fn loads_through_hl_step_it_afterwards() {
    // LD (HL+),A ; LD (HL-),A ; LD A,(HL+) ; LD A,(HL-)
    let mut cpu = machine(&[0x22, 0x32, 0x2A, 0x3A]);
    cpu.registers.set_hl(0xC000);
    cpu.registers.a = 0x11;
    assert_eq!(cpu.fetch_execute(), Ok(()));
    assert_eq!(cpu.bus.read_byte(0xC000), 0x11);
    assert_eq!(cpu.registers.get_hl(), 0xC001);
    cpu.registers.a = 0x22;
    assert_eq!(cpu.fetch_execute(), Ok(()));
    assert_eq!(cpu.bus.read_byte(0xC001), 0x22);
    assert_eq!(cpu.registers.get_hl(), 0xC000);
    assert_eq!(cpu.fetch_execute(), Ok(()));
    assert_eq!(cpu.registers.a, 0x11);
    assert_eq!(cpu.registers.get_hl(), 0xC001);
    assert_eq!(cpu.fetch_execute(), Ok(()));
    assert_eq!(cpu.registers.a, 0x22);
    assert_eq!(cpu.registers.get_hl(), 0xC000);
    assert_eq!(cpu.pc, 0x0104);
}

#[test]
fn loads_between_the_accumulator_and_memory() {
    // LD (BC),A ; LD A,(DE) ; LD (0xC300),A ; LD A,(0xC301) ; LDH (0x80),A ;
    // LDH A,(0x81) ; LD (C),A ; LD A,(C)
    let mut cpu = machine(&[
        0x02, 0x1A, 0xEA, 0x00, 0xC3, 0xFA, 0x01, 0xC3, 0xE0, 0x80, 0xF0, 0x81, 0xE2, 0xF2,
    ]);
    cpu.registers.set_bc(0xC100);
    cpu.registers.set_de(0xC101);
    cpu.bus.set_byte(0xC101, 0x77);
    cpu.bus.set_byte(0xC301, 0x55);
    cpu.bus.set_byte(0xFF81, 0x66);
    cpu.registers.a = 0x33;
    assert_eq!(cpu.fetch_execute(), Ok(()));
    assert_eq!(cpu.bus.read_byte(0xC100), 0x33);
    assert_eq!(cpu.pc, 0x0101);
    assert_eq!(cpu.fetch_execute(), Ok(()));
    assert_eq!(cpu.registers.a, 0x77);
    assert_eq!(cpu.fetch_execute(), Ok(()));
    assert_eq!(cpu.bus.read_byte(0xC300), 0x77);
    assert_eq!(cpu.pc, 0x0105);
    assert_eq!(cpu.fetch_execute(), Ok(()));
    assert_eq!(cpu.registers.a, 0x55);
    assert_eq!(cpu.pc, 0x0108);
    assert_eq!(cpu.fetch_execute(), Ok(()));
    assert_eq!(cpu.bus.read_byte(0xFF80), 0x55);
    assert_eq!(cpu.pc, 0x010A);
    assert_eq!(cpu.fetch_execute(), Ok(()));
    assert_eq!(cpu.registers.a, 0x66);
    assert_eq!(cpu.pc, 0x010C);
    cpu.registers.c = 0x90;
    assert_eq!(cpu.fetch_execute(), Ok(()));
    assert_eq!(cpu.bus.read_byte(0xFF90), 0x66);
    cpu.registers.a = 0;
    assert_eq!(cpu.fetch_execute(), Ok(()));
    assert_eq!(cpu.registers.a, 0x66);
    assert_eq!(cpu.pc, 0x010E);
}

#[test]
fn jumps() {
    // JP 0x0110 ; at 0x0110: JP (HL)
    let mut program = vec![0xC3u8, 0x10, 0x01];
    program.resize(0x10, 0x00);
    program.push(0xE9);
    let mut cpu = machine(&program);
    assert_eq!(cpu.fetch_execute(), Ok(()));
    assert_eq!(cpu.pc, 0x0110);
    cpu.registers.set_hl(0xC000);
    cpu.bus.set_byte(0xC000, 0x12);
    assert_eq!(cpu.fetch_execute(), Ok(()));
    assert_eq!(cpu.pc, 0xC000);
}

#[test]
fn jump_conditions() {
    let mut cpu = machine(&[]);
    for (z, c) in [(false, false), (false, true), (true, false), (true, true)] {
        cpu.registers.f.zero = z;
        cpu.registers.f.carry = c;
        assert_eq!(cpu.test(JumpTest::NotZero), !z);
        assert_eq!(cpu.test(JumpTest::Zero), z);
        assert_eq!(cpu.test(JumpTest::NotCarry), !c);
        assert_eq!(cpu.test(JumpTest::Carry), c);
        assert!(cpu.test(JumpTest::Unconditional));
    }
}

#[test]
fn rst_pushes_the_next_address() {
    let mut cpu = machine(&[0xEF]);
    assert_eq!(cpu.fetch_execute(), Ok(()));
    assert_eq!(cpu.pc, 0x0028);
    assert_eq!(cpu.sp, 0xFFFC);
    assert_eq!(cpu.bus.read_byte(0xFFFC), 0x01);
    assert_eq!(cpu.bus.read_byte(0xFFFD), 0x01);
}

#[test]
fn call_reads_its_operand_before_it_pushes() {
    // The call lies in work RAM, and the stack grows over its operand.
    let mut cpu = machine(&[]);
    cpu.pc = 0xC000;
    cpu.bus.set_byte(0xC000, 0xCD);
    cpu.bus.set_byte(0xC001, 0x50);
    cpu.bus.set_byte(0xC002, 0x03);
    cpu.sp = 0xC003;
    assert_eq!(cpu.fetch_execute(), Ok(()));
    assert_eq!(cpu.pc, 0x0350);
    assert_eq!(cpu.sp, 0xC001);
    assert_eq!(cpu.bus.read_byte(0xC001), 0x03);
    assert_eq!(cpu.bus.read_byte(0xC002), 0xC0);
}

#[test]
fn execute_leaves_the_program_counter_to_the_caller() {
    let mut cpu = machine(&[0x00, 0x42]);
    assert_eq!(cpu.execute(Instruction::NOP), Ok(0x0101));
    assert_eq!(cpu.pc, 0x0100);
    assert_eq!(cpu.execute(Instruction::ADD(ArithTarget::D8)), Ok(0x0102));
    assert_eq!(cpu.registers.a, 0x42);
    assert_eq!(cpu.execute(Instruction::INC(IncDecTarget::A)), Ok(0x0101));
    assert_eq!(cpu.registers.a, 0x43);
    assert_eq!(cpu.execute(Instruction::ADDHL(AddHLTarget::HL)), Ok(0x0101));
    assert_eq!(cpu.execute(Instruction::RLC(PrefixTarget::A)), Ok(0x0102));
    assert_eq!(cpu.registers.a, 0x86);
    assert_eq!(cpu.execute(Instruction::RST(RstTarget::X38)), Ok(0x0038));
    assert_eq!(cpu.execute(Instruction::POP(StackTarget::DE)), Ok(0x0101));
    assert_eq!(cpu.registers.get_de(), 0x0101);
    assert_eq!(
        cpu.execute(Instruction::LD(LoadType::Byte(LoadByteTarget::L, LoadByteSource::D8))),
        Ok(0x0102)
    );
    assert_eq!(cpu.registers.l, 0x42);
    assert_eq!(cpu.execute(Instruction::LD(LoadType::Word(LoadWordTarget::BC))), Ok(0x0103));
    assert_eq!(cpu.registers.get_bc(), 0x0042);
    assert_eq!(
        cpu.execute(Instruction::LD(LoadType::AFromIndirect(LoadIndirectTarget::WORDI))),
        Ok(0x0103)
    );
    assert_eq!(cpu.pc, 0x0100);
}

#[test]
fn program_counter_wraps_at_the_top() {
    let mut cpu = machine(&[]);
    cpu.pc = 0xFFFF;
    cpu.bus.set_byte(0xFFFF, 0x00);
    assert_eq!(cpu.fetch_execute(), Ok(()));
    assert_eq!(cpu.pc, 0x0000);
    // An immediate operand is fetched from the wrapped address.
    cpu.pc = 0xFFFF;
    cpu.bus.set_byte(0xFFFF, 0x3E);
    assert_eq!(cpu.fetch_execute(), Ok(()));
    assert_eq!(cpu.registers.a, cpu.bus.read_byte(0x0000));
    assert_eq!(cpu.pc, 0x0001);
}
