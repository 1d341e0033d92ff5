use gameboy_core::instructions::{
    AddHLTarget, ArithTarget, BitPosition, IncDecTarget, Instruction, JumpTest, LoadByteSource,
    LoadByteTarget, LoadIndirectTarget, LoadType, LoadWordTarget, PrefixTarget, RstTarget,
    StackTarget,
};

const UNUSED: [u8; 11] = [0xD3, 0xDB, 0xDD, 0xE3, 0xE4, 0xEB, 0xEC, 0xED, 0xF4, 0xFC, 0xFD];

#[test]
fn operands_come_from_the_table() {
    assert_eq!(Instruction::disassemble(0x80, false), Some(Instruction::ADD(ArithTarget::B)));
    assert_eq!(Instruction::disassemble(0x86, false), Some(Instruction::ADD(ArithTarget::HLI)));
    assert_eq!(
        Instruction::disassemble(0x46, true),
        Some(Instruction::BIT(BitPosition::B0, PrefixTarget::HLI))
    );
    assert_eq!(
        Instruction::disassemble(0x46, false),
        Some(Instruction::LD(LoadType::Byte(LoadByteTarget::B, LoadByteSource::HLI)))
    );
}

#[test]
fn unused_opcodes_are_invalid() {
    for byte in UNUSED {
        assert_eq!(Instruction::disassemble(byte, false), None);
        assert_eq!(Instruction::disassemble_not_prefixed(byte), None);
    }
}

#[test]
fn the_prefix_is_no_instruction() {
    assert_eq!(Instruction::disassemble(0xCB, false), None);
}

#[test]
fn every_other_opcode_is_defined() {
    let mut defined = 0;
    for byte in 0..=255u8 {
        let instr = Instruction::disassemble(byte, false);
        if byte == 0xCB || UNUSED.contains(&byte) {
            assert!(instr.is_none());
        } else {
            assert!(instr.is_some());
            defined += 1;
        }
    }
    assert_eq!(defined, 244);
}

#[test]
fn prefixed_decoding_is_total() {
    for byte in 0..=255u8 {
        assert!(Instruction::disassemble(byte, true).is_some());
        assert_eq!(
            Instruction::disassemble(byte, true),
            Some(Instruction::disassemble_prefixed(byte))
        );
    }
}

#[test]
fn register_loads_run_over_the_sources_in_order() {
    let sources = [
        LoadByteSource::B,
        LoadByteSource::C,
        LoadByteSource::D,
        LoadByteSource::E,
        LoadByteSource::H,
        LoadByteSource::L,
        LoadByteSource::HLI,
        LoadByteSource::A,
    ];
    let targets = [
        LoadByteTarget::B,
        LoadByteTarget::C,
        LoadByteTarget::D,
        LoadByteTarget::E,
        LoadByteTarget::H,
        LoadByteTarget::L,
        LoadByteTarget::HLI,
        LoadByteTarget::A,
    ];
    for row in 0..8usize {
        for col in 0..8usize {
            let byte = (0x40 + row * 8 + col) as u8;
            let expected = if byte == 0x76 {
                Instruction::HALT
            } else {
                Instruction::LD(LoadType::Byte(targets[row], sources[col]))
            };
            assert_eq!(Instruction::disassemble(byte, false), Some(expected));
        }
    }
}

#[test]
fn arithmetic_block() {
    let d = |b: u8| Instruction::disassemble(b, false);
    assert_eq!(d(0x87), Some(Instruction::ADD(ArithTarget::A)));
    assert_eq!(d(0x88), Some(Instruction::ADC(ArithTarget::B)));
    assert_eq!(d(0x8E), Some(Instruction::ADC(ArithTarget::HLI)));
    assert_eq!(d(0x90), Some(Instruction::SUB(ArithTarget::B)));
    assert_eq!(d(0x97), Some(Instruction::SUB(ArithTarget::A)));
    assert_eq!(d(0x98), Some(Instruction::SBC(ArithTarget::B)));
    assert_eq!(d(0xA1), Some(Instruction::AND(ArithTarget::C)));
    assert_eq!(d(0xAA), Some(Instruction::XOR(ArithTarget::D)));
    assert_eq!(d(0xB3), Some(Instruction::OR(ArithTarget::E)));
    assert_eq!(d(0xBC), Some(Instruction::CP(ArithTarget::H)));
    assert_eq!(d(0xBD), Some(Instruction::CP(ArithTarget::L)));
    assert_eq!(d(0xC6), Some(Instruction::ADD(ArithTarget::D8)));
    assert_eq!(d(0xCE), Some(Instruction::ADC(ArithTarget::D8)));
    assert_eq!(d(0xD6), Some(Instruction::SUB(ArithTarget::D8)));
    assert_eq!(d(0xDE), Some(Instruction::SBC(ArithTarget::D8)));
    assert_eq!(d(0xE6), Some(Instruction::AND(ArithTarget::D8)));
    assert_eq!(d(0xEE), Some(Instruction::XOR(ArithTarget::D8)));
    assert_eq!(d(0xF6), Some(Instruction::OR(ArithTarget::D8)));
    assert_eq!(d(0xFE), Some(Instruction::CP(ArithTarget::D8)));
}

#[test]
fn first_block() {
    let d = |b: u8| Instruction::disassemble(b, false);
    assert_eq!(d(0x00), Some(Instruction::NOP));
    assert_eq!(d(0x01), Some(Instruction::LD(LoadType::Word(LoadWordTarget::BC))));
    assert_eq!(d(0x31), Some(Instruction::LD(LoadType::Word(LoadWordTarget::SP))));
    assert_eq!(
        d(0x02),
        Some(Instruction::LD(LoadType::IndirectFromA(LoadIndirectTarget::BCI)))
    );
    assert_eq!(
        d(0x1A),
        Some(Instruction::LD(LoadType::AFromIndirect(LoadIndirectTarget::DEI)))
    );
    assert_eq!(
        d(0x22),
        Some(Instruction::LD(LoadType::IndirectFromA(LoadIndirectTarget::HLIPLUS)))
    );
    assert_eq!(
        d(0x3A),
        Some(Instruction::LD(LoadType::AFromIndirect(LoadIndirectTarget::HLIMINUS)))
    );
    assert_eq!(d(0x08), Some(Instruction::LD(LoadType::IndirectFromSP)));
    assert_eq!(d(0x09), Some(Instruction::ADDHL(AddHLTarget::BC)));
    assert_eq!(d(0x19), Some(Instruction::ADDHL(AddHLTarget::DE)));
    assert_eq!(d(0x29), Some(Instruction::ADDHL(AddHLTarget::HL)));
    assert_eq!(d(0x39), Some(Instruction::ADDHL(AddHLTarget::SP)));
    assert_eq!(d(0x03), Some(Instruction::INC(IncDecTarget::BC)));
    assert_eq!(d(0x23), Some(Instruction::INC(IncDecTarget::HL)));
    assert_eq!(d(0x2B), Some(Instruction::DEC(IncDecTarget::HL)));
    assert_eq!(d(0x3B), Some(Instruction::DEC(IncDecTarget::SP)));
    assert_eq!(d(0x24), Some(Instruction::INC(IncDecTarget::H)));
    assert_eq!(d(0x25), Some(Instruction::DEC(IncDecTarget::H)));
    assert_eq!(d(0x34), Some(Instruction::INC(IncDecTarget::HLI)));
    assert_eq!(d(0x3D), Some(Instruction::DEC(IncDecTarget::A)));
    assert_eq!(
        d(0x36),
        Some(Instruction::LD(LoadType::Byte(LoadByteTarget::HLI, LoadByteSource::D8)))
    );
    assert_eq!(d(0x07), Some(Instruction::RLCA));
    assert_eq!(d(0x0F), Some(Instruction::RRCA));
    assert_eq!(d(0x17), Some(Instruction::RLA));
    assert_eq!(d(0x1F), Some(Instruction::RRA));
    assert_eq!(d(0x27), Some(Instruction::DAA));
    assert_eq!(d(0x2F), Some(Instruction::CPL));
    assert_eq!(d(0x37), Some(Instruction::SCF));
    assert_eq!(d(0x3F), Some(Instruction::CCF));
    assert_eq!(d(0x10), Some(Instruction::STOP));
    assert_eq!(d(0x18), Some(Instruction::JR(JumpTest::Unconditional)));
    assert_eq!(d(0x20), Some(Instruction::JR(JumpTest::NotZero)));
    assert_eq!(d(0x28), Some(Instruction::JR(JumpTest::Zero)));
    assert_eq!(d(0x30), Some(Instruction::JR(JumpTest::NotCarry)));
    assert_eq!(d(0x38), Some(Instruction::JR(JumpTest::Carry)));
    assert_eq!(d(0x76), Some(Instruction::HALT));
}

#[test]
fn last_block() {
    let d = |b: u8| Instruction::disassemble(b, false);
    assert_eq!(d(0xC0), Some(Instruction::RET(JumpTest::NotZero)));
    assert_eq!(d(0xD8), Some(Instruction::RET(JumpTest::Carry)));
    assert_eq!(d(0xC9), Some(Instruction::RET(JumpTest::Unconditional)));
    assert_eq!(d(0xD9), Some(Instruction::RETI));
    assert_eq!(d(0xC3), Some(Instruction::JP(JumpTest::Unconditional)));
    assert_eq!(d(0xCA), Some(Instruction::JP(JumpTest::Zero)));
    assert_eq!(d(0xD2), Some(Instruction::JP(JumpTest::NotCarry)));
    assert_eq!(d(0xE9), Some(Instruction::JPHLI));
    assert_eq!(d(0xCD), Some(Instruction::CALL(JumpTest::Unconditional)));
    assert_eq!(d(0xC4), Some(Instruction::CALL(JumpTest::NotZero)));
    assert_eq!(d(0xDC), Some(Instruction::CALL(JumpTest::Carry)));
    assert_eq!(d(0xC1), Some(Instruction::POP(StackTarget::BC)));
    assert_eq!(d(0xD1), Some(Instruction::POP(StackTarget::DE)));
    assert_eq!(d(0xE1), Some(Instruction::POP(StackTarget::HL)));
    assert_eq!(d(0xF1), Some(Instruction::POP(StackTarget::AF)));
    assert_eq!(d(0xC5), Some(Instruction::PUSH(StackTarget::BC)));
    assert_eq!(d(0xF5), Some(Instruction::PUSH(StackTarget::AF)));
    assert_eq!(d(0xE0), Some(Instruction::LD(LoadType::A8FromA)));
    assert_eq!(d(0xF0), Some(Instruction::LD(LoadType::AFromA8)));
    assert_eq!(
        d(0xE2),
        Some(Instruction::LD(LoadType::IndirectFromA(LoadIndirectTarget::CI)))
    );
    assert_eq!(
        d(0xF2),
        Some(Instruction::LD(LoadType::AFromIndirect(LoadIndirectTarget::CI)))
    );
    assert_eq!(
        d(0xEA),
        Some(Instruction::LD(LoadType::IndirectFromA(LoadIndirectTarget::WORDI)))
    );
    assert_eq!(
        d(0xFA),
        Some(Instruction::LD(LoadType::AFromIndirect(LoadIndirectTarget::WORDI)))
    );
    assert_eq!(d(0xE8), Some(Instruction::ADDSP));
    assert_eq!(d(0xF8), Some(Instruction::LD(LoadType::HLFromSP)));
    assert_eq!(d(0xF9), Some(Instruction::LD(LoadType::SPFromHL)));
    assert_eq!(d(0xF3), Some(Instruction::DI));
    assert_eq!(d(0xFB), Some(Instruction::EI));
}

#[test]
fn reset_vectors() {
    let vectors = [
        (0xC7u8, RstTarget::X00, 0x00u16),
        (0xCF, RstTarget::X08, 0x08),
        (0xD7, RstTarget::X10, 0x10),
        (0xDF, RstTarget::X18, 0x18),
        (0xE7, RstTarget::X20, 0x20),
        (0xEF, RstTarget::X28, 0x28),
        (0xF7, RstTarget::X30, 0x30),
        (0xFF, RstTarget::X38, 0x38),
    ];
    for (byte, target, address) in vectors {
        assert_eq!(Instruction::disassemble(byte, false), Some(Instruction::RST(target)));
        assert_eq!(target.vector(), address);
    }
}

#[test]
fn prefixed_table() {
    let d = |b: u8| Instruction::disassemble(b, true);
    assert_eq!(d(0x00), Some(Instruction::RLC(PrefixTarget::B)));
    assert_eq!(d(0x0F), Some(Instruction::RRC(PrefixTarget::A)));
    assert_eq!(d(0x11), Some(Instruction::RL(PrefixTarget::C)));
    assert_eq!(d(0x1A), Some(Instruction::RR(PrefixTarget::D)));
    assert_eq!(d(0x23), Some(Instruction::SLA(PrefixTarget::E)));
    assert_eq!(d(0x2C), Some(Instruction::SRA(PrefixTarget::H)));
    assert_eq!(d(0x35), Some(Instruction::SWAP(PrefixTarget::L)));
    assert_eq!(d(0x3E), Some(Instruction::SRL(PrefixTarget::HLI)));
    assert_eq!(d(0x7C), Some(Instruction::BIT(BitPosition::B7, PrefixTarget::H)));
    assert_eq!(d(0x87), Some(Instruction::RES(BitPosition::B0, PrefixTarget::A)));
    assert_eq!(d(0xBF), Some(Instruction::RES(BitPosition::B7, PrefixTarget::A)));
    assert_eq!(d(0xC0), Some(Instruction::SET(BitPosition::B0, PrefixTarget::B)));
    assert_eq!(d(0xFE), Some(Instruction::SET(BitPosition::B7, PrefixTarget::HLI)));
}

#[test]
fn bit_positions_are_shift_counts() {
    let positions = [
        BitPosition::B0,
        BitPosition::B1,
        BitPosition::B2,
        BitPosition::B3,
        BitPosition::B4,
        BitPosition::B5,
        BitPosition::B6,
        BitPosition::B7,
    ];
    for (n, pos) in positions.into_iter().enumerate() {
        assert_eq!(u8::from(pos), n as u8);
        assert_eq!(pos.shift(), n as u8);
    }
}
