//! The instruction model and the decoder from opcode bytes to instructions.
use vstd::prelude::*;

verus! {

/// Every operation of the processor, with its operand selectors.
#[derive(Clone, Copy, Debug, PartialEq, Eq, Structural)]
pub enum Instruction {
    ADD(ArithTarget),
    ADC(ArithTarget),
    ADDHL(AddHLTarget),
    ADDSP,
    SUB(ArithTarget),
    SBC(ArithTarget),
    AND(ArithTarget),
    OR(ArithTarget),
    XOR(ArithTarget),
    CP(ArithTarget),
    INC(IncDecTarget),
    DEC(IncDecTarget),
    CCF,
    SCF,
    RRA,
    RLA,
    RRCA,
    RLCA,
    CPL,
    BIT(BitPosition, PrefixTarget),
    SET(BitPosition, PrefixTarget),
    RES(BitPosition, PrefixTarget),
    SRL(PrefixTarget),
    RR(PrefixTarget),
    RL(PrefixTarget),
    RRC(PrefixTarget),
    RLC(PrefixTarget),
    SRA(PrefixTarget),
    SLA(PrefixTarget),
    SWAP(PrefixTarget),
    JP(JumpTest),
    JR(JumpTest),
    JPHLI,
    LD(LoadType),
    PUSH(StackTarget),
    POP(StackTarget),
    CALL(JumpTest),
    RET(JumpTest),
    RST(RstTarget),
    RETI,
    NOP,
    HALT,
    DAA,
    STOP,
    DI,
    EI,
}

/// Operand of an 8-bit arithmetic or logic operation: a register, the
/// immediate byte `D8`, or the byte at the address in HL (`HLI`).
#[derive(Clone, Copy, Debug, PartialEq, Eq, Structural)]
pub enum ArithTarget {
    A,
    B,
    C,
    D,
    E,
    H,
    L,
    D8,
    HLI,
}

/// Operand of `ADD HL,rr`.
#[derive(Clone, Copy, Debug, PartialEq, Eq, Structural)]
pub enum AddHLTarget {
    BC,
    DE,
    HL,
    SP,
}

/// Operand of `INC` and `DEC`: a byte register, the byte at HL, or a 16-bit
/// pair or the stack pointer.
#[derive(Clone, Copy, Debug, PartialEq, Eq, Structural)]
pub enum IncDecTarget {
    A,
    B,
    C,
    D,
    E,
    H,
    L,
    HLI,
    BC,
    DE,
    HL,
    SP,
}

/// Operand of a prefixed operation.
#[derive(Clone, Copy, Debug, PartialEq, Eq, Structural)]
pub enum PrefixTarget {
    A,
    B,
    C,
    D,
    E,
    H,
    L,
    HLI,
}

/// A bit of a byte, `B0` being the least significant.
#[derive(Clone, Copy, Debug, PartialEq, Eq, Structural)]
pub enum BitPosition {
    B0,
    B1,
    B2,
    B3,
    B4,
    B5,
    B6,
    B7,
}

/// Condition of a jump, call or return.
#[derive(Clone, Copy, Debug, PartialEq, Eq, Structural)]
pub enum JumpTest {
    NotZero,
    Zero,
    NotCarry,
    Carry,
    Unconditional,
}

/// Destination of an 8-bit load.
#[derive(Clone, Copy, Debug, PartialEq, Eq, Structural)]
pub enum LoadByteTarget {
    A,
    B,
    C,
    D,
    E,
    H,
    L,
    HLI,
}

/// Source of an 8-bit load.
#[derive(Clone, Copy, Debug, PartialEq, Eq, Structural)]
pub enum LoadByteSource {
    A,
    B,
    C,
    D,
    E,
    H,
    L,
    D8,
    HLI,
}

/// Destination of a 16-bit immediate load.
#[derive(Clone, Copy, Debug, PartialEq, Eq, Structural)]
pub enum LoadWordTarget {
    BC,
    DE,
    HL,
    SP,
}

/// Memory operand of a load between the accumulator and memory: the byte at
/// BC, at DE, at HL with HL incremented or decremented afterwards, at the
/// address that follows the opcode, or at `0xFF00 + C`.
#[derive(Clone, Copy, Debug, PartialEq, Eq, Structural)]
pub enum LoadIndirectTarget {
    BCI,
    DEI,
    HLIPLUS,
    HLIMINUS,
    WORDI,
    CI,
}

/// The forms of `LD`.
#[derive(Clone, Copy, Debug, PartialEq, Eq, Structural)]
pub enum LoadType {
    Byte(LoadByteTarget, LoadByteSource),
    Word(LoadWordTarget),
    AFromIndirect(LoadIndirectTarget),
    IndirectFromA(LoadIndirectTarget),
    AFromA8,
    A8FromA,
    HLFromSP,
    SPFromHL,
    IndirectFromSP,
}

/// Operand of `PUSH` and `POP`.
#[derive(Clone, Copy, Debug, PartialEq, Eq, Structural)]
pub enum StackTarget {
    AF,
    BC,
    DE,
    HL,
}

/// The eight fixed targets of `RST`.
#[derive(Clone, Copy, Debug, PartialEq, Eq, Structural)]
pub enum RstTarget {
    X00,
    X08,
    X10,
    X18,
    X20,
    X28,
    X30,
    X38,
}

impl BitPosition {
    /// The number of the bit, 0 to 7.
    pub open spec fn index(self) -> u8 {
        match self {
            BitPosition::B0 => 0,
            BitPosition::B1 => 1,
            BitPosition::B2 => 2,
            BitPosition::B3 => 3,
            BitPosition::B4 => 4,
            BitPosition::B5 => 5,
            BitPosition::B6 => 6,
            BitPosition::B7 => 7,
        }
    }

    /// The number of the bit, for use as a shift count.
    pub fn shift(self) -> (n: u8)
        ensures
            n == self.index(),
    {
        match self {
            BitPosition::B0 => 0,
            BitPosition::B1 => 1,
            BitPosition::B2 => 2,
            BitPosition::B3 => 3,
            BitPosition::B4 => 4,
            BitPosition::B5 => 5,
            BitPosition::B6 => 6,
            BitPosition::B7 => 7,
        }
    }
}

impl From<BitPosition> for u8 {
    fn from(pos: BitPosition) -> (n: u8) {
        pos.shift()
    }
}

impl vstd::std_specs::convert::FromSpecImpl<BitPosition> for u8 {
    open spec fn obeys_from_spec() -> bool {
        true
    }

    open spec fn from_spec(pos: BitPosition) -> u8 {
        pos.index()
    }
}

impl RstTarget {
    /// The address that the reset vector stands for.
    pub open spec fn address(self) -> u16 {
        match self {
            RstTarget::X00 => 0x00,
            RstTarget::X08 => 0x08,
            RstTarget::X10 => 0x10,
            RstTarget::X18 => 0x18,
            RstTarget::X20 => 0x20,
            RstTarget::X28 => 0x28,
            RstTarget::X30 => 0x30,
            RstTarget::X38 => 0x38,
        }
    }

    /// The address that the reset vector stands for.
    pub fn vector(self) -> (addr: u16)
        ensures
            addr == self.address(),
    {
        match self {
            RstTarget::X00 => 0x00,
            RstTarget::X08 => 0x08,
            RstTarget::X10 => 0x10,
            RstTarget::X18 => 0x18,
            RstTarget::X20 => 0x20,
            RstTarget::X28 => 0x28,
            RstTarget::X30 => 0x30,
            RstTarget::X38 => 0x38,
        }
    }
}

// The opcode table is laid out by three fields of the opcode byte: the block
// `byte / 64`, the row `byte / 8 % 8` and the column `byte % 8`. Operands are
// numbered in the table's order.

/// The register operand numbered `n`: B, C, D, E, H, L, (HL), A.
pub open spec fn prefix_target(n: int) -> PrefixTarget {
    if n == 0 {
        PrefixTarget::B
    } else if n == 1 {
        PrefixTarget::C
    } else if n == 2 {
        PrefixTarget::D
    } else if n == 3 {
        PrefixTarget::E
    } else if n == 4 {
        PrefixTarget::H
    } else if n == 5 {
        PrefixTarget::L
    } else if n == 6 {
        PrefixTarget::HLI
    } else {
        PrefixTarget::A
    }
}

/// The register operand numbered `n`, as the operand of an arithmetic
/// operation.
pub open spec fn arith_target(n: int) -> ArithTarget {
    match prefix_target(n) {
        PrefixTarget::A => ArithTarget::A,
        PrefixTarget::B => ArithTarget::B,
        PrefixTarget::C => ArithTarget::C,
        PrefixTarget::D => ArithTarget::D,
        PrefixTarget::E => ArithTarget::E,
        PrefixTarget::H => ArithTarget::H,
        PrefixTarget::L => ArithTarget::L,
        PrefixTarget::HLI => ArithTarget::HLI,
    }
}

/// The register operand numbered `n`, as the operand of an 8-bit `INC` or
/// `DEC`.
pub open spec fn inc_dec_byte_target(n: int) -> IncDecTarget {
    match prefix_target(n) {
        PrefixTarget::A => IncDecTarget::A,
        PrefixTarget::B => IncDecTarget::B,
        PrefixTarget::C => IncDecTarget::C,
        PrefixTarget::D => IncDecTarget::D,
        PrefixTarget::E => IncDecTarget::E,
        PrefixTarget::H => IncDecTarget::H,
        PrefixTarget::L => IncDecTarget::L,
        PrefixTarget::HLI => IncDecTarget::HLI,
    }
}

/// The register operand numbered `n`, as the destination of a load.
pub open spec fn load_byte_target(n: int) -> LoadByteTarget {
    match prefix_target(n) {
        PrefixTarget::A => LoadByteTarget::A,
        PrefixTarget::B => LoadByteTarget::B,
        PrefixTarget::C => LoadByteTarget::C,
        PrefixTarget::D => LoadByteTarget::D,
        PrefixTarget::E => LoadByteTarget::E,
        PrefixTarget::H => LoadByteTarget::H,
        PrefixTarget::L => LoadByteTarget::L,
        PrefixTarget::HLI => LoadByteTarget::HLI,
    }
}

/// The register operand numbered `n`, as the source of a load.
pub open spec fn load_byte_source(n: int) -> LoadByteSource {
    match prefix_target(n) {
        PrefixTarget::A => LoadByteSource::A,
        PrefixTarget::B => LoadByteSource::B,
        PrefixTarget::C => LoadByteSource::C,
        PrefixTarget::D => LoadByteSource::D,
        PrefixTarget::E => LoadByteSource::E,
        PrefixTarget::H => LoadByteSource::H,
        PrefixTarget::L => LoadByteSource::L,
        PrefixTarget::HLI => LoadByteSource::HLI,
    }
}

/// The 16-bit operand numbered `n`: BC, DE, HL, SP.
pub open spec fn load_word_target(n: int) -> LoadWordTarget {
    if n == 0 {
        LoadWordTarget::BC
    } else if n == 1 {
        LoadWordTarget::DE
    } else if n == 2 {
        LoadWordTarget::HL
    } else {
        LoadWordTarget::SP
    }
}

/// The 16-bit operand numbered `n`, as the operand of `ADD HL,rr`.
pub open spec fn add_hl_target(n: int) -> AddHLTarget {
    match load_word_target(n) {
        LoadWordTarget::BC => AddHLTarget::BC,
        LoadWordTarget::DE => AddHLTarget::DE,
        LoadWordTarget::HL => AddHLTarget::HL,
        LoadWordTarget::SP => AddHLTarget::SP,
    }
}

/// The 16-bit operand numbered `n`, as the operand of a 16-bit `INC` or
/// `DEC`.
pub open spec fn inc_dec_word_target(n: int) -> IncDecTarget {
    match load_word_target(n) {
        LoadWordTarget::BC => IncDecTarget::BC,
        LoadWordTarget::DE => IncDecTarget::DE,
        LoadWordTarget::HL => IncDecTarget::HL,
        LoadWordTarget::SP => IncDecTarget::SP,
    }
}

/// The stack operand numbered `n`: BC, DE, HL, AF.
pub open spec fn stack_target(n: int) -> StackTarget {
    if n == 0 {
        StackTarget::BC
    } else if n == 1 {
        StackTarget::DE
    } else if n == 2 {
        StackTarget::HL
    } else {
        StackTarget::AF
    }
}

/// The memory operand numbered `n` of the accumulator loads in the first
/// block: (BC), (DE), (HL+), (HL-).
pub open spec fn indirect_target(n: int) -> LoadIndirectTarget {
    if n == 0 {
        LoadIndirectTarget::BCI
    } else if n == 1 {
        LoadIndirectTarget::DEI
    } else if n == 2 {
        LoadIndirectTarget::HLIPLUS
    } else {
        LoadIndirectTarget::HLIMINUS
    }
}

/// The condition numbered `n`: NZ, Z, NC, C.
pub open spec fn condition(n: int) -> JumpTest {
    if n == 0 {
        JumpTest::NotZero
    } else if n == 1 {
        JumpTest::Zero
    } else if n == 2 {
        JumpTest::NotCarry
    } else {
        JumpTest::Carry
    }
}

/// The bit numbered `n`.
pub open spec fn bit_position(n: int) -> BitPosition {
    if n == 0 {
        BitPosition::B0
    } else if n == 1 {
        BitPosition::B1
    } else if n == 2 {
        BitPosition::B2
    } else if n == 3 {
        BitPosition::B3
    } else if n == 4 {
        BitPosition::B4
    } else if n == 5 {
        BitPosition::B5
    } else if n == 6 {
        BitPosition::B6
    } else {
        BitPosition::B7
    }
}

/// The reset vector numbered `n`, which stands for the address `8 * n`.
pub open spec fn rst_target(n: int) -> RstTarget {
    if n == 0 {
        RstTarget::X00
    } else if n == 1 {
        RstTarget::X08
    } else if n == 2 {
        RstTarget::X10
    } else if n == 3 {
        RstTarget::X18
    } else if n == 4 {
        RstTarget::X20
    } else if n == 5 {
        RstTarget::X28
    } else if n == 6 {
        RstTarget::X30
    } else {
        RstTarget::X38
    }
}

/// The arithmetic or logic operation numbered `n` on `operand`: ADD, ADC,
/// SUB, SBC, AND, XOR, OR, CP.
pub open spec fn arith_instruction(n: int, operand: ArithTarget) -> Instruction {
    if n == 0 {
        Instruction::ADD(operand)
    } else if n == 1 {
        Instruction::ADC(operand)
    } else if n == 2 {
        Instruction::SUB(operand)
    } else if n == 3 {
        Instruction::SBC(operand)
    } else if n == 4 {
        Instruction::AND(operand)
    } else if n == 5 {
        Instruction::XOR(operand)
    } else if n == 6 {
        Instruction::OR(operand)
    } else {
        Instruction::CP(operand)
    }
}

/// The rotate or shift numbered `n` on `operand`: RLC, RRC, RL, RR, SLA, SRA,
/// SWAP, SRL.
pub open spec fn rotate_instruction(n: int, operand: PrefixTarget) -> Instruction {
    if n == 0 {
        Instruction::RLC(operand)
    } else if n == 1 {
        Instruction::RRC(operand)
    } else if n == 2 {
        Instruction::RL(operand)
    } else if n == 3 {
        Instruction::RR(operand)
    } else if n == 4 {
        Instruction::SLA(operand)
    } else if n == 5 {
        Instruction::SRA(operand)
    } else if n == 6 {
        Instruction::SWAP(operand)
    } else {
        Instruction::SRL(operand)
    }
}

/// The operation on the accumulator or the flags numbered `n` in the last
/// column of the first block.
pub open spec fn accumulator_instruction(n: int) -> Instruction {
    if n == 0 {
        Instruction::RLCA
    } else if n == 1 {
        Instruction::RRCA
    } else if n == 2 {
        Instruction::RLA
    } else if n == 3 {
        Instruction::RRA
    } else if n == 4 {
        Instruction::DAA
    } else if n == 5 {
        Instruction::CPL
    } else if n == 6 {
        Instruction::SCF
    } else {
        Instruction::CCF
    }
}

/// The opcodes that stand for no instruction. `0xCB` announces a prefixed
/// opcode and is no instruction by itself.
pub open spec fn is_unused_opcode(byte: u8) -> bool {
    byte == 0xD3 || byte == 0xDB || byte == 0xDD || byte == 0xE3 || byte == 0xE4 || byte == 0xEB
        || byte == 0xEC || byte == 0xED || byte == 0xF4 || byte == 0xFC || byte == 0xFD
}

/// Block 0 (`0x00` to `0x3F`): loads of immediates, 16-bit arithmetic,
/// relative jumps and the operations on the accumulator.
pub open spec fn decode_block0(row: int, col: int) -> Instruction {
    if col == 0 {
        if row == 0 {
            Instruction::NOP
        } else if row == 1 {
            Instruction::LD(LoadType::IndirectFromSP)
        } else if row == 2 {
            Instruction::STOP
        } else if row == 3 {
            Instruction::JR(JumpTest::Unconditional)
        } else {
            Instruction::JR(condition(row - 4))
        }
    } else if col == 1 {
        if row % 2 == 0 {
            Instruction::LD(LoadType::Word(load_word_target(row / 2)))
        } else {
            Instruction::ADDHL(add_hl_target(row / 2))
        }
    } else if col == 2 {
        if row % 2 == 0 {
            Instruction::LD(LoadType::IndirectFromA(indirect_target(row / 2)))
        } else {
            Instruction::LD(LoadType::AFromIndirect(indirect_target(row / 2)))
        }
    } else if col == 3 {
        if row % 2 == 0 {
            Instruction::INC(inc_dec_word_target(row / 2))
        } else {
            Instruction::DEC(inc_dec_word_target(row / 2))
        }
    } else if col == 4 {
        Instruction::INC(inc_dec_byte_target(row))
    } else if col == 5 {
        Instruction::DEC(inc_dec_byte_target(row))
    } else if col == 6 {
        Instruction::LD(LoadType::Byte(load_byte_target(row), LoadByteSource::D8))
    } else {
        accumulator_instruction(row)
    }
}

/// Block 3 (`0xC0` to `0xFF`): control flow, the stack, arithmetic on an
/// immediate and the loads through the high page.
pub open spec fn decode_block3(row: int, col: int) -> Option<Instruction> {
    if col == 0 {
        if row < 4 {
            Some(Instruction::RET(condition(row)))
        } else if row == 4 {
            Some(Instruction::LD(LoadType::A8FromA))
        } else if row == 5 {
            Some(Instruction::ADDSP)
        } else if row == 6 {
            Some(Instruction::LD(LoadType::AFromA8))
        } else {
            Some(Instruction::LD(LoadType::HLFromSP))
        }
    } else if col == 1 {
        if row % 2 == 0 {
            Some(Instruction::POP(stack_target(row / 2)))
        } else if row == 1 {
            Some(Instruction::RET(JumpTest::Unconditional))
        } else if row == 3 {
            Some(Instruction::RETI)
        } else if row == 5 {
            Some(Instruction::JPHLI)
        } else {
            Some(Instruction::LD(LoadType::SPFromHL))
        }
    } else if col == 2 {
        if row < 4 {
            Some(Instruction::JP(condition(row)))
        } else if row == 4 {
            Some(Instruction::LD(LoadType::IndirectFromA(LoadIndirectTarget::CI)))
        } else if row == 5 {
            Some(Instruction::LD(LoadType::IndirectFromA(LoadIndirectTarget::WORDI)))
        } else if row == 6 {
            Some(Instruction::LD(LoadType::AFromIndirect(LoadIndirectTarget::CI)))
        } else {
            Some(Instruction::LD(LoadType::AFromIndirect(LoadIndirectTarget::WORDI)))
        }
    } else if col == 3 {
        if row == 0 {
            Some(Instruction::JP(JumpTest::Unconditional))
        } else if row == 6 {
            Some(Instruction::DI)
        } else if row == 7 {
            Some(Instruction::EI)
        } else {
            None
        }
    } else if col == 4 {
        if row < 4 {
            Some(Instruction::CALL(condition(row)))
        } else {
            None
        }
    } else if col == 5 {
        if row % 2 == 0 {
            Some(Instruction::PUSH(stack_target(row / 2)))
        } else if row == 1 {
            Some(Instruction::CALL(JumpTest::Unconditional))
        } else {
            None
        }
    } else if col == 6 {
        Some(arith_instruction(row, ArithTarget::D8))
    } else {
        Some(Instruction::RST(rst_target(row)))
    }
}

/// The instruction that an opcode byte without prefix stands for, or `None`
/// for `0xCB` and the unused opcodes.
pub open spec fn decode_unprefixed(byte: u8) -> Option<Instruction> {
    let block = byte as int / 64;
    let row = byte as int / 8 % 8;
    let col = byte as int % 8;
    if block == 0 {
        Some(decode_block0(row, col))
    } else if block == 1 {
        if byte == 0x76 {
            Some(Instruction::HALT)
        } else {
            Some(Instruction::LD(LoadType::Byte(load_byte_target(row), load_byte_source(col))))
        }
    } else if block == 2 {
        Some(arith_instruction(row, arith_target(col)))
    } else {
        decode_block3(row, col)
    }
}

/// The instruction that an opcode byte after the prefix `0xCB` stands for.
pub open spec fn decode_prefixed(byte: u8) -> Instruction {
    let block = byte as int / 64;
    let row = byte as int / 8 % 8;
    let operand = prefix_target(byte as int % 8);
    if block == 0 {
        rotate_instruction(row, operand)
    } else if block == 1 {
        Instruction::BIT(bit_position(row), operand)
    } else if block == 2 {
        Instruction::RES(bit_position(row), operand)
    } else {
        Instruction::SET(bit_position(row), operand)
    }
}

/// The decoder as a function: the instruction for an opcode byte, given
/// whether the prefix `0xCB` came before it.
pub open spec fn decode(byte: u8, is_prefixed: bool) -> Option<Instruction> {
    if is_prefixed {
        Some(decode_prefixed(byte))
    } else {
        decode_unprefixed(byte)
    }
}

/// Decoding is defined for every prefixed opcode, and for every opcode
/// without prefix but `0xCB` and the eleven unused ones.
pub proof fn lemma_decode_defined(byte: u8)
    ensures
        decode(byte, true).is_some(),
        decode(byte, false).is_none() <==> (byte == 0xCB || is_unused_opcode(byte)),
{
}

impl Instruction {
    /// Decodes one opcode byte. `is_prefixed` says whether the byte followed
    /// the prefix `0xCB`. `None` marks a byte that is no instruction.
    pub fn disassemble(byte: u8, is_prefixed: bool) -> (instr: Option<Instruction>)
        ensures
            instr == decode(byte, is_prefixed),
            is_prefixed ==> instr.is_some(),
            !is_prefixed ==> (instr.is_none() <==> (byte == 0xCB || is_unused_opcode(byte))),
    {
        proof {
            lemma_decode_defined(byte);
        }
        if is_prefixed {
            Some(Instruction::disassemble_prefixed(byte))
        } else {
            Instruction::disassemble_not_prefixed(byte)
        }
    }

    /// The table of the opcodes without prefix.
    pub fn disassemble_not_prefixed(byte: u8) -> (instr: Option<Instruction>)
        ensures
            instr == decode_unprefixed(byte),
    {
        match byte {
            0x00 => Some(Instruction::NOP),
            0x01 => Some(Instruction::LD(LoadType::Word(LoadWordTarget::BC))),
            0x02 => Some(Instruction::LD(LoadType::IndirectFromA(LoadIndirectTarget::BCI))),
            0x03 => Some(Instruction::INC(IncDecTarget::BC)),
            0x04 => Some(Instruction::INC(IncDecTarget::B)),
            0x05 => Some(Instruction::DEC(IncDecTarget::B)),
            0x06 => Some(Instruction::LD(LoadType::Byte(LoadByteTarget::B, LoadByteSource::D8))),
            0x07 => Some(Instruction::RLCA),
            0x08 => Some(Instruction::LD(LoadType::IndirectFromSP)),
            0x09 => Some(Instruction::ADDHL(AddHLTarget::BC)),
            0x0a => Some(Instruction::LD(LoadType::AFromIndirect(LoadIndirectTarget::BCI))),
            0x0b => Some(Instruction::DEC(IncDecTarget::BC)),
            0x0c => Some(Instruction::INC(IncDecTarget::C)),
            0x0d => Some(Instruction::DEC(IncDecTarget::C)),
            0x0e => Some(Instruction::LD(LoadType::Byte(LoadByteTarget::C, LoadByteSource::D8))),
            0x0f => Some(Instruction::RRCA),
            0x10 => Some(Instruction::STOP),
            0x11 => Some(Instruction::LD(LoadType::Word(LoadWordTarget::DE))),
            0x12 => Some(Instruction::LD(LoadType::IndirectFromA(LoadIndirectTarget::DEI))),
            0x13 => Some(Instruction::INC(IncDecTarget::DE)),
            0x14 => Some(Instruction::INC(IncDecTarget::D)),
            0x15 => Some(Instruction::DEC(IncDecTarget::D)),
            0x16 => Some(Instruction::LD(LoadType::Byte(LoadByteTarget::D, LoadByteSource::D8))),
            0x17 => Some(Instruction::RLA),
            0x18 => Some(Instruction::JR(JumpTest::Unconditional)),
            0x19 => Some(Instruction::ADDHL(AddHLTarget::DE)),
            0x1a => Some(Instruction::LD(LoadType::AFromIndirect(LoadIndirectTarget::DEI))),
            0x1b => Some(Instruction::DEC(IncDecTarget::DE)),
            0x1c => Some(Instruction::INC(IncDecTarget::E)),
            0x1d => Some(Instruction::DEC(IncDecTarget::E)),
            0x1e => Some(Instruction::LD(LoadType::Byte(LoadByteTarget::E, LoadByteSource::D8))),
            0x1f => Some(Instruction::RRA),
            0x20 => Some(Instruction::JR(JumpTest::NotZero)),
            0x21 => Some(Instruction::LD(LoadType::Word(LoadWordTarget::HL))),
            0x22 => Some(Instruction::LD(LoadType::IndirectFromA(LoadIndirectTarget::HLIPLUS))),
            0x23 => Some(Instruction::INC(IncDecTarget::HL)),
            0x24 => Some(Instruction::INC(IncDecTarget::H)),
            0x25 => Some(Instruction::DEC(IncDecTarget::H)),
            0x26 => Some(Instruction::LD(LoadType::Byte(LoadByteTarget::H, LoadByteSource::D8))),
            0x27 => Some(Instruction::DAA),
            0x28 => Some(Instruction::JR(JumpTest::Zero)),
            0x29 => Some(Instruction::ADDHL(AddHLTarget::HL)),
            0x2a => Some(Instruction::LD(LoadType::AFromIndirect(LoadIndirectTarget::HLIPLUS))),
            0x2b => Some(Instruction::DEC(IncDecTarget::HL)),
            0x2c => Some(Instruction::INC(IncDecTarget::L)),
            0x2d => Some(Instruction::DEC(IncDecTarget::L)),
            0x2e => Some(Instruction::LD(LoadType::Byte(LoadByteTarget::L, LoadByteSource::D8))),
            0x2f => Some(Instruction::CPL),
            0x30 => Some(Instruction::JR(JumpTest::NotCarry)),
            0x31 => Some(Instruction::LD(LoadType::Word(LoadWordTarget::SP))),
            0x32 => Some(Instruction::LD(LoadType::IndirectFromA(LoadIndirectTarget::HLIMINUS))),
            0x33 => Some(Instruction::INC(IncDecTarget::SP)),
            0x34 => Some(Instruction::INC(IncDecTarget::HLI)),
            0x35 => Some(Instruction::DEC(IncDecTarget::HLI)),
            0x36 => Some(Instruction::LD(LoadType::Byte(LoadByteTarget::HLI, LoadByteSource::D8))),
            0x37 => Some(Instruction::SCF),
            0x38 => Some(Instruction::JR(JumpTest::Carry)),
            0x39 => Some(Instruction::ADDHL(AddHLTarget::SP)),
            0x3a => Some(Instruction::LD(LoadType::AFromIndirect(LoadIndirectTarget::HLIMINUS))),
            0x3b => Some(Instruction::DEC(IncDecTarget::SP)),
            0x3c => Some(Instruction::INC(IncDecTarget::A)),
            0x3d => Some(Instruction::DEC(IncDecTarget::A)),
            0x3e => Some(Instruction::LD(LoadType::Byte(LoadByteTarget::A, LoadByteSource::D8))),
            0x3f => Some(Instruction::CCF),
            0x40 => Some(Instruction::LD(LoadType::Byte(LoadByteTarget::B, LoadByteSource::B))),
            0x41 => Some(Instruction::LD(LoadType::Byte(LoadByteTarget::B, LoadByteSource::C))),
            0x42 => Some(Instruction::LD(LoadType::Byte(LoadByteTarget::B, LoadByteSource::D))),
            0x43 => Some(Instruction::LD(LoadType::Byte(LoadByteTarget::B, LoadByteSource::E))),
            0x44 => Some(Instruction::LD(LoadType::Byte(LoadByteTarget::B, LoadByteSource::H))),
            0x45 => Some(Instruction::LD(LoadType::Byte(LoadByteTarget::B, LoadByteSource::L))),
            0x46 => Some(Instruction::LD(LoadType::Byte(LoadByteTarget::B, LoadByteSource::HLI))),
            0x47 => Some(Instruction::LD(LoadType::Byte(LoadByteTarget::B, LoadByteSource::A))),
            0x48 => Some(Instruction::LD(LoadType::Byte(LoadByteTarget::C, LoadByteSource::B))),
            0x49 => Some(Instruction::LD(LoadType::Byte(LoadByteTarget::C, LoadByteSource::C))),
            0x4a => Some(Instruction::LD(LoadType::Byte(LoadByteTarget::C, LoadByteSource::D))),
            0x4b => Some(Instruction::LD(LoadType::Byte(LoadByteTarget::C, LoadByteSource::E))),
            0x4c => Some(Instruction::LD(LoadType::Byte(LoadByteTarget::C, LoadByteSource::H))),
            0x4d => Some(Instruction::LD(LoadType::Byte(LoadByteTarget::C, LoadByteSource::L))),
            0x4e => Some(Instruction::LD(LoadType::Byte(LoadByteTarget::C, LoadByteSource::HLI))),
            0x4f => Some(Instruction::LD(LoadType::Byte(LoadByteTarget::C, LoadByteSource::A))),
            0x50 => Some(Instruction::LD(LoadType::Byte(LoadByteTarget::D, LoadByteSource::B))),
            0x51 => Some(Instruction::LD(LoadType::Byte(LoadByteTarget::D, LoadByteSource::C))),
            0x52 => Some(Instruction::LD(LoadType::Byte(LoadByteTarget::D, LoadByteSource::D))),
            0x53 => Some(Instruction::LD(LoadType::Byte(LoadByteTarget::D, LoadByteSource::E))),
            0x54 => Some(Instruction::LD(LoadType::Byte(LoadByteTarget::D, LoadByteSource::H))),
            0x55 => Some(Instruction::LD(LoadType::Byte(LoadByteTarget::D, LoadByteSource::L))),
            0x56 => Some(Instruction::LD(LoadType::Byte(LoadByteTarget::D, LoadByteSource::HLI))),
            0x57 => Some(Instruction::LD(LoadType::Byte(LoadByteTarget::D, LoadByteSource::A))),
            0x58 => Some(Instruction::LD(LoadType::Byte(LoadByteTarget::E, LoadByteSource::B))),
            0x59 => Some(Instruction::LD(LoadType::Byte(LoadByteTarget::E, LoadByteSource::C))),
            0x5a => Some(Instruction::LD(LoadType::Byte(LoadByteTarget::E, LoadByteSource::D))),
            0x5b => Some(Instruction::LD(LoadType::Byte(LoadByteTarget::E, LoadByteSource::E))),
            0x5c => Some(Instruction::LD(LoadType::Byte(LoadByteTarget::E, LoadByteSource::H))),
            0x5d => Some(Instruction::LD(LoadType::Byte(LoadByteTarget::E, LoadByteSource::L))),
            0x5e => Some(Instruction::LD(LoadType::Byte(LoadByteTarget::E, LoadByteSource::HLI))),
            0x5f => Some(Instruction::LD(LoadType::Byte(LoadByteTarget::E, LoadByteSource::A))),
            0x60 => Some(Instruction::LD(LoadType::Byte(LoadByteTarget::H, LoadByteSource::B))),
            0x61 => Some(Instruction::LD(LoadType::Byte(LoadByteTarget::H, LoadByteSource::C))),
            0x62 => Some(Instruction::LD(LoadType::Byte(LoadByteTarget::H, LoadByteSource::D))),
            0x63 => Some(Instruction::LD(LoadType::Byte(LoadByteTarget::H, LoadByteSource::E))),
            0x64 => Some(Instruction::LD(LoadType::Byte(LoadByteTarget::H, LoadByteSource::H))),
            0x65 => Some(Instruction::LD(LoadType::Byte(LoadByteTarget::H, LoadByteSource::L))),
            0x66 => Some(Instruction::LD(LoadType::Byte(LoadByteTarget::H, LoadByteSource::HLI))),
            0x67 => Some(Instruction::LD(LoadType::Byte(LoadByteTarget::H, LoadByteSource::A))),
            0x68 => Some(Instruction::LD(LoadType::Byte(LoadByteTarget::L, LoadByteSource::B))),
            0x69 => Some(Instruction::LD(LoadType::Byte(LoadByteTarget::L, LoadByteSource::C))),
            0x6a => Some(Instruction::LD(LoadType::Byte(LoadByteTarget::L, LoadByteSource::D))),
            0x6b => Some(Instruction::LD(LoadType::Byte(LoadByteTarget::L, LoadByteSource::E))),
            0x6c => Some(Instruction::LD(LoadType::Byte(LoadByteTarget::L, LoadByteSource::H))),
            0x6d => Some(Instruction::LD(LoadType::Byte(LoadByteTarget::L, LoadByteSource::L))),
            0x6e => Some(Instruction::LD(LoadType::Byte(LoadByteTarget::L, LoadByteSource::HLI))),
            0x6f => Some(Instruction::LD(LoadType::Byte(LoadByteTarget::L, LoadByteSource::A))),
            0x70 => Some(Instruction::LD(LoadType::Byte(LoadByteTarget::HLI, LoadByteSource::B))),
            0x71 => Some(Instruction::LD(LoadType::Byte(LoadByteTarget::HLI, LoadByteSource::C))),
            0x72 => Some(Instruction::LD(LoadType::Byte(LoadByteTarget::HLI, LoadByteSource::D))),
            0x73 => Some(Instruction::LD(LoadType::Byte(LoadByteTarget::HLI, LoadByteSource::E))),
            0x74 => Some(Instruction::LD(LoadType::Byte(LoadByteTarget::HLI, LoadByteSource::H))),
            0x75 => Some(Instruction::LD(LoadType::Byte(LoadByteTarget::HLI, LoadByteSource::L))),
            0x76 => Some(Instruction::HALT),
            0x77 => Some(Instruction::LD(LoadType::Byte(LoadByteTarget::HLI, LoadByteSource::A))),
            0x78 => Some(Instruction::LD(LoadType::Byte(LoadByteTarget::A, LoadByteSource::B))),
            0x79 => Some(Instruction::LD(LoadType::Byte(LoadByteTarget::A, LoadByteSource::C))),
            0x7a => Some(Instruction::LD(LoadType::Byte(LoadByteTarget::A, LoadByteSource::D))),
            0x7b => Some(Instruction::LD(LoadType::Byte(LoadByteTarget::A, LoadByteSource::E))),
            0x7c => Some(Instruction::LD(LoadType::Byte(LoadByteTarget::A, LoadByteSource::H))),
            0x7d => Some(Instruction::LD(LoadType::Byte(LoadByteTarget::A, LoadByteSource::L))),
            0x7e => Some(Instruction::LD(LoadType::Byte(LoadByteTarget::A, LoadByteSource::HLI))),
            0x7f => Some(Instruction::LD(LoadType::Byte(LoadByteTarget::A, LoadByteSource::A))),
            0x80 => Some(Instruction::ADD(ArithTarget::B)),
            0x81 => Some(Instruction::ADD(ArithTarget::C)),
            0x82 => Some(Instruction::ADD(ArithTarget::D)),
            0x83 => Some(Instruction::ADD(ArithTarget::E)),
            0x84 => Some(Instruction::ADD(ArithTarget::H)),
            0x85 => Some(Instruction::ADD(ArithTarget::L)),
            0x86 => Some(Instruction::ADD(ArithTarget::HLI)),
            0x87 => Some(Instruction::ADD(ArithTarget::A)),
            0x88 => Some(Instruction::ADC(ArithTarget::B)),
            0x89 => Some(Instruction::ADC(ArithTarget::C)),
            0x8a => Some(Instruction::ADC(ArithTarget::D)),
            0x8b => Some(Instruction::ADC(ArithTarget::E)),
            0x8c => Some(Instruction::ADC(ArithTarget::H)),
            0x8d => Some(Instruction::ADC(ArithTarget::L)),
            0x8e => Some(Instruction::ADC(ArithTarget::HLI)),
            0x8f => Some(Instruction::ADC(ArithTarget::A)),
            0x90 => Some(Instruction::SUB(ArithTarget::B)),
            0x91 => Some(Instruction::SUB(ArithTarget::C)),
            0x92 => Some(Instruction::SUB(ArithTarget::D)),
            0x93 => Some(Instruction::SUB(ArithTarget::E)),
            0x94 => Some(Instruction::SUB(ArithTarget::H)),
            0x95 => Some(Instruction::SUB(ArithTarget::L)),
            0x96 => Some(Instruction::SUB(ArithTarget::HLI)),
            0x97 => Some(Instruction::SUB(ArithTarget::A)),
            0x98 => Some(Instruction::SBC(ArithTarget::B)),
            0x99 => Some(Instruction::SBC(ArithTarget::C)),
            0x9a => Some(Instruction::SBC(ArithTarget::D)),
            0x9b => Some(Instruction::SBC(ArithTarget::E)),
            0x9c => Some(Instruction::SBC(ArithTarget::H)),
            0x9d => Some(Instruction::SBC(ArithTarget::L)),
            0x9e => Some(Instruction::SBC(ArithTarget::HLI)),
            0x9f => Some(Instruction::SBC(ArithTarget::A)),
            0xa0 => Some(Instruction::AND(ArithTarget::B)),
            0xa1 => Some(Instruction::AND(ArithTarget::C)),
            0xa2 => Some(Instruction::AND(ArithTarget::D)),
            0xa3 => Some(Instruction::AND(ArithTarget::E)),
            0xa4 => Some(Instruction::AND(ArithTarget::H)),
            0xa5 => Some(Instruction::AND(ArithTarget::L)),
            0xa6 => Some(Instruction::AND(ArithTarget::HLI)),
            0xa7 => Some(Instruction::AND(ArithTarget::A)),
            0xa8 => Some(Instruction::XOR(ArithTarget::B)),
            0xa9 => Some(Instruction::XOR(ArithTarget::C)),
            0xaa => Some(Instruction::XOR(ArithTarget::D)),
            0xab => Some(Instruction::XOR(ArithTarget::E)),
            0xac => Some(Instruction::XOR(ArithTarget::H)),
            0xad => Some(Instruction::XOR(ArithTarget::L)),
            0xae => Some(Instruction::XOR(ArithTarget::HLI)),
            0xaf => Some(Instruction::XOR(ArithTarget::A)),
            0xb0 => Some(Instruction::OR(ArithTarget::B)),
            0xb1 => Some(Instruction::OR(ArithTarget::C)),
            0xb2 => Some(Instruction::OR(ArithTarget::D)),
            0xb3 => Some(Instruction::OR(ArithTarget::E)),
            0xb4 => Some(Instruction::OR(ArithTarget::H)),
            0xb5 => Some(Instruction::OR(ArithTarget::L)),
            0xb6 => Some(Instruction::OR(ArithTarget::HLI)),
            0xb7 => Some(Instruction::OR(ArithTarget::A)),
            0xb8 => Some(Instruction::CP(ArithTarget::B)),
            0xb9 => Some(Instruction::CP(ArithTarget::C)),
            0xba => Some(Instruction::CP(ArithTarget::D)),
            0xbb => Some(Instruction::CP(ArithTarget::E)),
            0xbc => Some(Instruction::CP(ArithTarget::H)),
            0xbd => Some(Instruction::CP(ArithTarget::L)),
            0xbe => Some(Instruction::CP(ArithTarget::HLI)),
            0xbf => Some(Instruction::CP(ArithTarget::A)),
            0xc0 => Some(Instruction::RET(JumpTest::NotZero)),
            0xc1 => Some(Instruction::POP(StackTarget::BC)),
            0xc2 => Some(Instruction::JP(JumpTest::NotZero)),
            0xc3 => Some(Instruction::JP(JumpTest::Unconditional)),
            0xc4 => Some(Instruction::CALL(JumpTest::NotZero)),
            0xc5 => Some(Instruction::PUSH(StackTarget::BC)),
            0xc6 => Some(Instruction::ADD(ArithTarget::D8)),
            0xc7 => Some(Instruction::RST(RstTarget::X00)),
            0xc8 => Some(Instruction::RET(JumpTest::Zero)),
            0xc9 => Some(Instruction::RET(JumpTest::Unconditional)),
            0xca => Some(Instruction::JP(JumpTest::Zero)),
            0xcc => Some(Instruction::CALL(JumpTest::Zero)),
            0xcd => Some(Instruction::CALL(JumpTest::Unconditional)),
            0xce => Some(Instruction::ADC(ArithTarget::D8)),
            0xcf => Some(Instruction::RST(RstTarget::X08)),
            0xd0 => Some(Instruction::RET(JumpTest::NotCarry)),
            0xd1 => Some(Instruction::POP(StackTarget::DE)),
            0xd2 => Some(Instruction::JP(JumpTest::NotCarry)),
            0xd4 => Some(Instruction::CALL(JumpTest::NotCarry)),
            0xd5 => Some(Instruction::PUSH(StackTarget::DE)),
            0xd6 => Some(Instruction::SUB(ArithTarget::D8)),
            0xd7 => Some(Instruction::RST(RstTarget::X10)),
            0xd8 => Some(Instruction::RET(JumpTest::Carry)),
            0xd9 => Some(Instruction::RETI),
            0xda => Some(Instruction::JP(JumpTest::Carry)),
            0xdc => Some(Instruction::CALL(JumpTest::Carry)),
            0xde => Some(Instruction::SBC(ArithTarget::D8)),
            0xdf => Some(Instruction::RST(RstTarget::X18)),
            0xe0 => Some(Instruction::LD(LoadType::A8FromA)),
            0xe1 => Some(Instruction::POP(StackTarget::HL)),
            0xe2 => Some(Instruction::LD(LoadType::IndirectFromA(LoadIndirectTarget::CI))),
            0xe5 => Some(Instruction::PUSH(StackTarget::HL)),
            0xe6 => Some(Instruction::AND(ArithTarget::D8)),
            0xe7 => Some(Instruction::RST(RstTarget::X20)),
            0xe8 => Some(Instruction::ADDSP),
            0xe9 => Some(Instruction::JPHLI),
            0xea => Some(Instruction::LD(LoadType::IndirectFromA(LoadIndirectTarget::WORDI))),
            0xee => Some(Instruction::XOR(ArithTarget::D8)),
            0xef => Some(Instruction::RST(RstTarget::X28)),
            0xf0 => Some(Instruction::LD(LoadType::AFromA8)),
            0xf1 => Some(Instruction::POP(StackTarget::AF)),
            0xf2 => Some(Instruction::LD(LoadType::AFromIndirect(LoadIndirectTarget::CI))),
            0xf3 => Some(Instruction::DI),
            0xf5 => Some(Instruction::PUSH(StackTarget::AF)),
            0xf6 => Some(Instruction::OR(ArithTarget::D8)),
            0xf7 => Some(Instruction::RST(RstTarget::X30)),
            0xf8 => Some(Instruction::LD(LoadType::HLFromSP)),
            0xf9 => Some(Instruction::LD(LoadType::SPFromHL)),
            0xfa => Some(Instruction::LD(LoadType::AFromIndirect(LoadIndirectTarget::WORDI))),
            0xfb => Some(Instruction::EI),
            0xfe => Some(Instruction::CP(ArithTarget::D8)),
            0xff => Some(Instruction::RST(RstTarget::X38)),
            _ => None,
        }
    }

    /// The table of the opcodes after the prefix `0xCB`; every byte is an
    /// instruction.
    pub fn disassemble_prefixed(byte: u8) -> (instr: Instruction)
        ensures
            instr == decode_prefixed(byte),
    {
        match byte {
            0x00 => Instruction::RLC(PrefixTarget::B),
            0x01 => Instruction::RLC(PrefixTarget::C),
            0x02 => Instruction::RLC(PrefixTarget::D),
            0x03 => Instruction::RLC(PrefixTarget::E),
            0x04 => Instruction::RLC(PrefixTarget::H),
            0x05 => Instruction::RLC(PrefixTarget::L),
            0x06 => Instruction::RLC(PrefixTarget::HLI),
            0x07 => Instruction::RLC(PrefixTarget::A),
            0x08 => Instruction::RRC(PrefixTarget::B),
            0x09 => Instruction::RRC(PrefixTarget::C),
            0x0a => Instruction::RRC(PrefixTarget::D),
            0x0b => Instruction::RRC(PrefixTarget::E),
            0x0c => Instruction::RRC(PrefixTarget::H),
            0x0d => Instruction::RRC(PrefixTarget::L),
            0x0e => Instruction::RRC(PrefixTarget::HLI),
            0x0f => Instruction::RRC(PrefixTarget::A),
            0x10 => Instruction::RL(PrefixTarget::B),
            0x11 => Instruction::RL(PrefixTarget::C),
            0x12 => Instruction::RL(PrefixTarget::D),
            0x13 => Instruction::RL(PrefixTarget::E),
            0x14 => Instruction::RL(PrefixTarget::H),
            0x15 => Instruction::RL(PrefixTarget::L),
            0x16 => Instruction::RL(PrefixTarget::HLI),
            0x17 => Instruction::RL(PrefixTarget::A),
            0x18 => Instruction::RR(PrefixTarget::B),
            0x19 => Instruction::RR(PrefixTarget::C),
            0x1a => Instruction::RR(PrefixTarget::D),
            0x1b => Instruction::RR(PrefixTarget::E),
            0x1c => Instruction::RR(PrefixTarget::H),
            0x1d => Instruction::RR(PrefixTarget::L),
            0x1e => Instruction::RR(PrefixTarget::HLI),
            0x1f => Instruction::RR(PrefixTarget::A),
            0x20 => Instruction::SLA(PrefixTarget::B),
            0x21 => Instruction::SLA(PrefixTarget::C),
            0x22 => Instruction::SLA(PrefixTarget::D),
            0x23 => Instruction::SLA(PrefixTarget::E),
            0x24 => Instruction::SLA(PrefixTarget::H),
            0x25 => Instruction::SLA(PrefixTarget::L),
            0x26 => Instruction::SLA(PrefixTarget::HLI),
            0x27 => Instruction::SLA(PrefixTarget::A),
            0x28 => Instruction::SRA(PrefixTarget::B),
            0x29 => Instruction::SRA(PrefixTarget::C),
            0x2a => Instruction::SRA(PrefixTarget::D),
            0x2b => Instruction::SRA(PrefixTarget::E),
            0x2c => Instruction::SRA(PrefixTarget::H),
            0x2d => Instruction::SRA(PrefixTarget::L),
            0x2e => Instruction::SRA(PrefixTarget::HLI),
            0x2f => Instruction::SRA(PrefixTarget::A),
            0x30 => Instruction::SWAP(PrefixTarget::B),
            0x31 => Instruction::SWAP(PrefixTarget::C),
            0x32 => Instruction::SWAP(PrefixTarget::D),
            0x33 => Instruction::SWAP(PrefixTarget::E),
            0x34 => Instruction::SWAP(PrefixTarget::H),
            0x35 => Instruction::SWAP(PrefixTarget::L),
            0x36 => Instruction::SWAP(PrefixTarget::HLI),
            0x37 => Instruction::SWAP(PrefixTarget::A),
            0x38 => Instruction::SRL(PrefixTarget::B),
            0x39 => Instruction::SRL(PrefixTarget::C),
            0x3a => Instruction::SRL(PrefixTarget::D),
            0x3b => Instruction::SRL(PrefixTarget::E),
            0x3c => Instruction::SRL(PrefixTarget::H),
            0x3d => Instruction::SRL(PrefixTarget::L),
            0x3e => Instruction::SRL(PrefixTarget::HLI),
            0x3f => Instruction::SRL(PrefixTarget::A),
            0x40 => Instruction::BIT(BitPosition::B0, PrefixTarget::B),
            0x41 => Instruction::BIT(BitPosition::B0, PrefixTarget::C),
            0x42 => Instruction::BIT(BitPosition::B0, PrefixTarget::D),
            0x43 => Instruction::BIT(BitPosition::B0, PrefixTarget::E),
            0x44 => Instruction::BIT(BitPosition::B0, PrefixTarget::H),
            0x45 => Instruction::BIT(BitPosition::B0, PrefixTarget::L),
            0x46 => Instruction::BIT(BitPosition::B0, PrefixTarget::HLI),
            0x47 => Instruction::BIT(BitPosition::B0, PrefixTarget::A),
            0x48 => Instruction::BIT(BitPosition::B1, PrefixTarget::B),
            0x49 => Instruction::BIT(BitPosition::B1, PrefixTarget::C),
            0x4a => Instruction::BIT(BitPosition::B1, PrefixTarget::D),
            0x4b => Instruction::BIT(BitPosition::B1, PrefixTarget::E),
            0x4c => Instruction::BIT(BitPosition::B1, PrefixTarget::H),
            0x4d => Instruction::BIT(BitPosition::B1, PrefixTarget::L),
            0x4e => Instruction::BIT(BitPosition::B1, PrefixTarget::HLI),
            0x4f => Instruction::BIT(BitPosition::B1, PrefixTarget::A),
            0x50 => Instruction::BIT(BitPosition::B2, PrefixTarget::B),
            0x51 => Instruction::BIT(BitPosition::B2, PrefixTarget::C),
            0x52 => Instruction::BIT(BitPosition::B2, PrefixTarget::D),
            0x53 => Instruction::BIT(BitPosition::B2, PrefixTarget::E),
            0x54 => Instruction::BIT(BitPosition::B2, PrefixTarget::H),
            0x55 => Instruction::BIT(BitPosition::B2, PrefixTarget::L),
            0x56 => Instruction::BIT(BitPosition::B2, PrefixTarget::HLI),
            0x57 => Instruction::BIT(BitPosition::B2, PrefixTarget::A),
            0x58 => Instruction::BIT(BitPosition::B3, PrefixTarget::B),
            0x59 => Instruction::BIT(BitPosition::B3, PrefixTarget::C),
            0x5a => Instruction::BIT(BitPosition::B3, PrefixTarget::D),
            0x5b => Instruction::BIT(BitPosition::B3, PrefixTarget::E),
            0x5c => Instruction::BIT(BitPosition::B3, PrefixTarget::H),
            0x5d => Instruction::BIT(BitPosition::B3, PrefixTarget::L),
            0x5e => Instruction::BIT(BitPosition::B3, PrefixTarget::HLI),
            0x5f => Instruction::BIT(BitPosition::B3, PrefixTarget::A),
            0x60 => Instruction::BIT(BitPosition::B4, PrefixTarget::B),
            0x61 => Instruction::BIT(BitPosition::B4, PrefixTarget::C),
            0x62 => Instruction::BIT(BitPosition::B4, PrefixTarget::D),
            0x63 => Instruction::BIT(BitPosition::B4, PrefixTarget::E),
            0x64 => Instruction::BIT(BitPosition::B4, PrefixTarget::H),
            0x65 => Instruction::BIT(BitPosition::B4, PrefixTarget::L),
            0x66 => Instruction::BIT(BitPosition::B4, PrefixTarget::HLI),
            0x67 => Instruction::BIT(BitPosition::B4, PrefixTarget::A),
            0x68 => Instruction::BIT(BitPosition::B5, PrefixTarget::B),
            0x69 => Instruction::BIT(BitPosition::B5, PrefixTarget::C),
            0x6a => Instruction::BIT(BitPosition::B5, PrefixTarget::D),
            0x6b => Instruction::BIT(BitPosition::B5, PrefixTarget::E),
            0x6c => Instruction::BIT(BitPosition::B5, PrefixTarget::H),
            0x6d => Instruction::BIT(BitPosition::B5, PrefixTarget::L),
            0x6e => Instruction::BIT(BitPosition::B5, PrefixTarget::HLI),
            0x6f => Instruction::BIT(BitPosition::B5, PrefixTarget::A),
            0x70 => Instruction::BIT(BitPosition::B6, PrefixTarget::B),
            0x71 => Instruction::BIT(BitPosition::B6, PrefixTarget::C),
            0x72 => Instruction::BIT(BitPosition::B6, PrefixTarget::D),
            0x73 => Instruction::BIT(BitPosition::B6, PrefixTarget::E),
            0x74 => Instruction::BIT(BitPosition::B6, PrefixTarget::H),
            0x75 => Instruction::BIT(BitPosition::B6, PrefixTarget::L),
            0x76 => Instruction::BIT(BitPosition::B6, PrefixTarget::HLI),
            0x77 => Instruction::BIT(BitPosition::B6, PrefixTarget::A),
            0x78 => Instruction::BIT(BitPosition::B7, PrefixTarget::B),
            0x79 => Instruction::BIT(BitPosition::B7, PrefixTarget::C),
            0x7a => Instruction::BIT(BitPosition::B7, PrefixTarget::D),
            0x7b => Instruction::BIT(BitPosition::B7, PrefixTarget::E),
            0x7c => Instruction::BIT(BitPosition::B7, PrefixTarget::H),
            0x7d => Instruction::BIT(BitPosition::B7, PrefixTarget::L),
            0x7e => Instruction::BIT(BitPosition::B7, PrefixTarget::HLI),
            0x7f => Instruction::BIT(BitPosition::B7, PrefixTarget::A),
            0x80 => Instruction::RES(BitPosition::B0, PrefixTarget::B),
            0x81 => Instruction::RES(BitPosition::B0, PrefixTarget::C),
            0x82 => Instruction::RES(BitPosition::B0, PrefixTarget::D),
            0x83 => Instruction::RES(BitPosition::B0, PrefixTarget::E),
            0x84 => Instruction::RES(BitPosition::B0, PrefixTarget::H),
            0x85 => Instruction::RES(BitPosition::B0, PrefixTarget::L),
            0x86 => Instruction::RES(BitPosition::B0, PrefixTarget::HLI),
            0x87 => Instruction::RES(BitPosition::B0, PrefixTarget::A),
            0x88 => Instruction::RES(BitPosition::B1, PrefixTarget::B),
            0x89 => Instruction::RES(BitPosition::B1, PrefixTarget::C),
            0x8a => Instruction::RES(BitPosition::B1, PrefixTarget::D),
            0x8b => Instruction::RES(BitPosition::B1, PrefixTarget::E),
            0x8c => Instruction::RES(BitPosition::B1, PrefixTarget::H),
            0x8d => Instruction::RES(BitPosition::B1, PrefixTarget::L),
            0x8e => Instruction::RES(BitPosition::B1, PrefixTarget::HLI),
            0x8f => Instruction::RES(BitPosition::B1, PrefixTarget::A),
            0x90 => Instruction::RES(BitPosition::B2, PrefixTarget::B),
            0x91 => Instruction::RES(BitPosition::B2, PrefixTarget::C),
            0x92 => Instruction::RES(BitPosition::B2, PrefixTarget::D),
            0x93 => Instruction::RES(BitPosition::B2, PrefixTarget::E),
            0x94 => Instruction::RES(BitPosition::B2, PrefixTarget::H),
            0x95 => Instruction::RES(BitPosition::B2, PrefixTarget::L),
            0x96 => Instruction::RES(BitPosition::B2, PrefixTarget::HLI),
            0x97 => Instruction::RES(BitPosition::B2, PrefixTarget::A),
            0x98 => Instruction::RES(BitPosition::B3, PrefixTarget::B),
            0x99 => Instruction::RES(BitPosition::B3, PrefixTarget::C),
            0x9a => Instruction::RES(BitPosition::B3, PrefixTarget::D),
            0x9b => Instruction::RES(BitPosition::B3, PrefixTarget::E),
            0x9c => Instruction::RES(BitPosition::B3, PrefixTarget::H),
            0x9d => Instruction::RES(BitPosition::B3, PrefixTarget::L),
            0x9e => Instruction::RES(BitPosition::B3, PrefixTarget::HLI),
            0x9f => Instruction::RES(BitPosition::B3, PrefixTarget::A),
            0xa0 => Instruction::RES(BitPosition::B4, PrefixTarget::B),
            0xa1 => Instruction::RES(BitPosition::B4, PrefixTarget::C),
            0xa2 => Instruction::RES(BitPosition::B4, PrefixTarget::D),
            0xa3 => Instruction::RES(BitPosition::B4, PrefixTarget::E),
            0xa4 => Instruction::RES(BitPosition::B4, PrefixTarget::H),
            0xa5 => Instruction::RES(BitPosition::B4, PrefixTarget::L),
            0xa6 => Instruction::RES(BitPosition::B4, PrefixTarget::HLI),
            0xa7 => Instruction::RES(BitPosition::B4, PrefixTarget::A),
            0xa8 => Instruction::RES(BitPosition::B5, PrefixTarget::B),
            0xa9 => Instruction::RES(BitPosition::B5, PrefixTarget::C),
            0xaa => Instruction::RES(BitPosition::B5, PrefixTarget::D),
            0xab => Instruction::RES(BitPosition::B5, PrefixTarget::E),
            0xac => Instruction::RES(BitPosition::B5, PrefixTarget::H),
            0xad => Instruction::RES(BitPosition::B5, PrefixTarget::L),
            0xae => Instruction::RES(BitPosition::B5, PrefixTarget::HLI),
            0xaf => Instruction::RES(BitPosition::B5, PrefixTarget::A),
            0xb0 => Instruction::RES(BitPosition::B6, PrefixTarget::B),
            0xb1 => Instruction::RES(BitPosition::B6, PrefixTarget::C),
            0xb2 => Instruction::RES(BitPosition::B6, PrefixTarget::D),
            0xb3 => Instruction::RES(BitPosition::B6, PrefixTarget::E),
            0xb4 => Instruction::RES(BitPosition::B6, PrefixTarget::H),
            0xb5 => Instruction::RES(BitPosition::B6, PrefixTarget::L),
            0xb6 => Instruction::RES(BitPosition::B6, PrefixTarget::HLI),
            0xb7 => Instruction::RES(BitPosition::B6, PrefixTarget::A),
            0xb8 => Instruction::RES(BitPosition::B7, PrefixTarget::B),
            0xb9 => Instruction::RES(BitPosition::B7, PrefixTarget::C),
            0xba => Instruction::RES(BitPosition::B7, PrefixTarget::D),
            0xbb => Instruction::RES(BitPosition::B7, PrefixTarget::E),
            0xbc => Instruction::RES(BitPosition::B7, PrefixTarget::H),
            0xbd => Instruction::RES(BitPosition::B7, PrefixTarget::L),
            0xbe => Instruction::RES(BitPosition::B7, PrefixTarget::HLI),
            0xbf => Instruction::RES(BitPosition::B7, PrefixTarget::A),
            0xc0 => Instruction::SET(BitPosition::B0, PrefixTarget::B),
            0xc1 => Instruction::SET(BitPosition::B0, PrefixTarget::C),
            0xc2 => Instruction::SET(BitPosition::B0, PrefixTarget::D),
            0xc3 => Instruction::SET(BitPosition::B0, PrefixTarget::E),
            0xc4 => Instruction::SET(BitPosition::B0, PrefixTarget::H),
            0xc5 => Instruction::SET(BitPosition::B0, PrefixTarget::L),
            0xc6 => Instruction::SET(BitPosition::B0, PrefixTarget::HLI),
            0xc7 => Instruction::SET(BitPosition::B0, PrefixTarget::A),
            0xc8 => Instruction::SET(BitPosition::B1, PrefixTarget::B),
            0xc9 => Instruction::SET(BitPosition::B1, PrefixTarget::C),
            0xca => Instruction::SET(BitPosition::B1, PrefixTarget::D),
            0xcb => Instruction::SET(BitPosition::B1, PrefixTarget::E),
            0xcc => Instruction::SET(BitPosition::B1, PrefixTarget::H),
            0xcd => Instruction::SET(BitPosition::B1, PrefixTarget::L),
            0xce => Instruction::SET(BitPosition::B1, PrefixTarget::HLI),
            0xcf => Instruction::SET(BitPosition::B1, PrefixTarget::A),
            0xd0 => Instruction::SET(BitPosition::B2, PrefixTarget::B),
            0xd1 => Instruction::SET(BitPosition::B2, PrefixTarget::C),
            0xd2 => Instruction::SET(BitPosition::B2, PrefixTarget::D),
            0xd3 => Instruction::SET(BitPosition::B2, PrefixTarget::E),
            0xd4 => Instruction::SET(BitPosition::B2, PrefixTarget::H),
            0xd5 => Instruction::SET(BitPosition::B2, PrefixTarget::L),
            0xd6 => Instruction::SET(BitPosition::B2, PrefixTarget::HLI),
            0xd7 => Instruction::SET(BitPosition::B2, PrefixTarget::A),
            0xd8 => Instruction::SET(BitPosition::B3, PrefixTarget::B),
            0xd9 => Instruction::SET(BitPosition::B3, PrefixTarget::C),
            0xda => Instruction::SET(BitPosition::B3, PrefixTarget::D),
            0xdb => Instruction::SET(BitPosition::B3, PrefixTarget::E),
            0xdc => Instruction::SET(BitPosition::B3, PrefixTarget::H),
            0xdd => Instruction::SET(BitPosition::B3, PrefixTarget::L),
            0xde => Instruction::SET(BitPosition::B3, PrefixTarget::HLI),
            0xdf => Instruction::SET(BitPosition::B3, PrefixTarget::A),
            0xe0 => Instruction::SET(BitPosition::B4, PrefixTarget::B),
            0xe1 => Instruction::SET(BitPosition::B4, PrefixTarget::C),
            0xe2 => Instruction::SET(BitPosition::B4, PrefixTarget::D),
            0xe3 => Instruction::SET(BitPosition::B4, PrefixTarget::E),
            0xe4 => Instruction::SET(BitPosition::B4, PrefixTarget::H),
            0xe5 => Instruction::SET(BitPosition::B4, PrefixTarget::L),
            0xe6 => Instruction::SET(BitPosition::B4, PrefixTarget::HLI),
            0xe7 => Instruction::SET(BitPosition::B4, PrefixTarget::A),
            0xe8 => Instruction::SET(BitPosition::B5, PrefixTarget::B),
            0xe9 => Instruction::SET(BitPosition::B5, PrefixTarget::C),
            0xea => Instruction::SET(BitPosition::B5, PrefixTarget::D),
            0xeb => Instruction::SET(BitPosition::B5, PrefixTarget::E),
            0xec => Instruction::SET(BitPosition::B5, PrefixTarget::H),
            0xed => Instruction::SET(BitPosition::B5, PrefixTarget::L),
            0xee => Instruction::SET(BitPosition::B5, PrefixTarget::HLI),
            0xef => Instruction::SET(BitPosition::B5, PrefixTarget::A),
            0xf0 => Instruction::SET(BitPosition::B6, PrefixTarget::B),
            0xf1 => Instruction::SET(BitPosition::B6, PrefixTarget::C),
            0xf2 => Instruction::SET(BitPosition::B6, PrefixTarget::D),
            0xf3 => Instruction::SET(BitPosition::B6, PrefixTarget::E),
            0xf4 => Instruction::SET(BitPosition::B6, PrefixTarget::H),
            0xf5 => Instruction::SET(BitPosition::B6, PrefixTarget::L),
            0xf6 => Instruction::SET(BitPosition::B6, PrefixTarget::HLI),
            0xf7 => Instruction::SET(BitPosition::B6, PrefixTarget::A),
            0xf8 => Instruction::SET(BitPosition::B7, PrefixTarget::B),
            0xf9 => Instruction::SET(BitPosition::B7, PrefixTarget::C),
            0xfa => Instruction::SET(BitPosition::B7, PrefixTarget::D),
            0xfb => Instruction::SET(BitPosition::B7, PrefixTarget::E),
            0xfc => Instruction::SET(BitPosition::B7, PrefixTarget::H),
            0xfd => Instruction::SET(BitPosition::B7, PrefixTarget::L),
            0xfe => Instruction::SET(BitPosition::B7, PrefixTarget::HLI),
            _ => Instruction::SET(BitPosition::B7, PrefixTarget::A),
        }
    }
}

} // verus!
