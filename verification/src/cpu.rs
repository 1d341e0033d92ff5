//! The processor: program counter, stack pointer, registers and bus, and the
//! executor that runs one instruction at a time.
use vstd::prelude::*;
use vstd::pervasive::unreached;
use crate::alu::{
    add16, add8, add_sp, and8, bit_mask, bit_test_flags, dec8, decimal_adjust, decimal_adjusted,
    decrement8, difference8, inc8, increment8, or8, reset_bit, rotate, rotated, rotation_flags,
    set_bit, sub8, sum16, sum8, sum_sp, test_bit, xor8, Rotation,
};
use crate::flags::Flags;
use crate::instructions::{
    decode, is_unused_opcode, lemma_decode_defined, AddHLTarget, ArithTarget, BitPosition,
    IncDecTarget, Instruction, JumpTest, LoadByteSource, LoadByteTarget, LoadIndirectTarget,
    LoadType, LoadWordTarget, PrefixTarget, RstTarget, StackTarget,
};
use crate::memory_bus::{Memory, MemoryBus};
use crate::registers::Registers;
use crate::word::{
    backward, forward, high, high_byte, join, lemma_offset_by, lemma_split_join, low, low_byte,
    offset_by, sign_extend, signed8, word_of,
};

verus! {

/// The two fatal conditions that running an instruction can meet.
#[derive(Clone, Copy, Debug, PartialEq, Eq, Structural)]
pub enum CpuError {
    /// The byte at `pc` (or, when `prefixed`, the byte after the prefix at
    /// `pc`) is no instruction.
    UnknownOpcode { pc: u16, byte: u8, prefixed: bool },
    /// The program ran the `STOP` instruction at `pc`.
    ProgramStop { pc: u16 },
}

/// The processor and the bus it drives.
pub struct CPU {
    pub pc: u16,
    pub sp: u16,
    pub registers: Registers,
    pub bus: MemoryBus,
    /// The master interrupt-enable latch.
    pub interrupts: bool,
    pub is_halted: bool,
}

/// The state of the machine as plain values: the mathematical model of a
/// `CPU`. The instruction set is defined on this type.
pub struct CpuState {
    pub pc: u16,
    pub sp: u16,
    pub registers: Registers,
    pub bus: Memory,
    pub interrupts: bool,
    pub is_halted: bool,
}

impl CpuState {
    /// The state at reset over the memory `bus`.
    pub open spec fn reset(bus: Memory) -> CpuState {
        CpuState {
            pc: 0x0000,
            sp: 0xFFFE,
            registers: Registers::reset(),
            bus,
            interrupts: false,
            is_halted: false,
        }
    }

    /// The byte that follows the opcode.
    pub open spec fn next_byte(self) -> u8 {
        self.bus.read(offset_by(self.pc, 1))
    }

    /// The little-endian word that follows the opcode.
    pub open spec fn next_word(self) -> u16 {
        word_of(self.bus.read(offset_by(self.pc, 2)), self.bus.read(offset_by(self.pc, 1)))
    }

    /// This state with the flags `flags`.
    pub open spec fn with_flags(self, flags: Flags) -> CpuState {
        CpuState { registers: Registers { f: flags, ..self.registers }, ..self }
    }

    /// This state with the accumulator and the flags that an operation of the
    /// arithmetic unit gave.
    pub open spec fn with_result(self, out: (u8, Flags)) -> CpuState {
        CpuState { registers: Registers { a: out.0, f: out.1, ..self.registers }, ..self }
    }

    /// This state with the registers `registers`.
    pub open spec fn with_registers(self, registers: Registers) -> CpuState {
        CpuState { registers, ..self }
    }

    /// This state after a write of `value` to memory at `address`.
    pub open spec fn with_byte(self, address: u16, value: u8) -> CpuState {
        CpuState { bus: self.bus.write(address, value), ..self }
    }

    /// The value of an operand of an arithmetic operation.
    #[verifier::opaque]
    pub open spec fn arith_value(self, target: ArithTarget) -> u8 {
        match target {
            ArithTarget::A => self.registers.a,
            ArithTarget::B => self.registers.b,
            ArithTarget::C => self.registers.c,
            ArithTarget::D => self.registers.d,
            ArithTarget::E => self.registers.e,
            ArithTarget::H => self.registers.h,
            ArithTarget::L => self.registers.l,
            ArithTarget::D8 => self.next_byte(),
            ArithTarget::HLI => self.bus.read(self.registers.hl()),
        }
    }

    /// The address after an arithmetic instruction: two bytes on for an
    /// immediate operand, else one.
    pub open spec fn arith_next(self, target: ArithTarget) -> u16 {
        if target == ArithTarget::D8 {
            offset_by(self.pc, 2)
        } else {
            offset_by(self.pc, 1)
        }
    }

    /// The value of an operand of a prefixed operation.
    #[verifier::opaque]
    pub open spec fn prefix_value(self, target: PrefixTarget) -> u8 {
        match target {
            PrefixTarget::A => self.registers.a,
            PrefixTarget::B => self.registers.b,
            PrefixTarget::C => self.registers.c,
            PrefixTarget::D => self.registers.d,
            PrefixTarget::E => self.registers.e,
            PrefixTarget::H => self.registers.h,
            PrefixTarget::L => self.registers.l,
            PrefixTarget::HLI => self.bus.read(self.registers.hl()),
        }
    }

    /// This state after a write of `value` to an operand of a prefixed
    /// operation.
    #[verifier::opaque]
    pub open spec fn with_prefix_value(self, target: PrefixTarget, value: u8) -> CpuState {
        match target {
            PrefixTarget::A => self.with_registers(Registers { a: value, ..self.registers }),
            PrefixTarget::B => self.with_registers(Registers { b: value, ..self.registers }),
            PrefixTarget::C => self.with_registers(Registers { c: value, ..self.registers }),
            PrefixTarget::D => self.with_registers(Registers { d: value, ..self.registers }),
            PrefixTarget::E => self.with_registers(Registers { e: value, ..self.registers }),
            PrefixTarget::H => self.with_registers(Registers { h: value, ..self.registers }),
            PrefixTarget::L => self.with_registers(Registers { l: value, ..self.registers }),
            PrefixTarget::HLI => self.with_byte(self.registers.hl(), value),
        }
    }

    /// The value of the source of an 8-bit load.
    #[verifier::opaque]
    pub open spec fn load_value(self, source: LoadByteSource) -> u8 {
        match source {
            LoadByteSource::A => self.registers.a,
            LoadByteSource::B => self.registers.b,
            LoadByteSource::C => self.registers.c,
            LoadByteSource::D => self.registers.d,
            LoadByteSource::E => self.registers.e,
            LoadByteSource::H => self.registers.h,
            LoadByteSource::L => self.registers.l,
            LoadByteSource::D8 => self.next_byte(),
            LoadByteSource::HLI => self.bus.read(self.registers.hl()),
        }
    }

    /// The operand that the destination of an 8-bit load names.
    pub open spec fn load_destination(target: LoadByteTarget) -> PrefixTarget {
        match target {
            LoadByteTarget::A => PrefixTarget::A,
            LoadByteTarget::B => PrefixTarget::B,
            LoadByteTarget::C => PrefixTarget::C,
            LoadByteTarget::D => PrefixTarget::D,
            LoadByteTarget::E => PrefixTarget::E,
            LoadByteTarget::H => PrefixTarget::H,
            LoadByteTarget::L => PrefixTarget::L,
            LoadByteTarget::HLI => PrefixTarget::HLI,
        }
    }

    /// Whether the condition of a jump, call or return holds.
    #[verifier::opaque]
    pub open spec fn holds(self, test: JumpTest) -> bool {
        match test {
            JumpTest::NotZero => !self.registers.f.zero,
            JumpTest::Zero => self.registers.f.zero,
            JumpTest::NotCarry => !self.registers.f.carry,
            JumpTest::Carry => self.registers.f.carry,
            JumpTest::Unconditional => true,
        }
    }

    /// This state after a push of `value`: the stack pointer goes down by
    /// one and the high byte is written there, then again for the low byte.
    #[verifier::opaque]
    pub open spec fn pushed(self, value: u16) -> CpuState {
        let first = offset_by(self.sp, -1);
        let second = offset_by(self.sp, -2);
        CpuState {
            sp: second,
            bus: self.bus.write(first, high_byte(value)).write(second, low_byte(value)),
            ..self
        }
    }

    /// The state after a pop, and the word popped: the low byte is read at
    /// the stack pointer, the high byte one above, and the stack pointer goes
    /// up by two.
    #[verifier::opaque]
    pub open spec fn popped(self) -> (CpuState, u16) {
        (
            CpuState { sp: offset_by(self.sp, 2), ..self },
            word_of(self.bus.read(offset_by(self.sp, 1)), self.bus.read(self.sp)),
        )
    }

    /// The value of a register pair as the operand of `PUSH`.
    #[verifier::opaque]
    pub open spec fn stack_value(self, target: StackTarget) -> u16 {
        match target {
            StackTarget::AF => self.registers.af(),
            StackTarget::BC => self.registers.bc(),
            StackTarget::DE => self.registers.de(),
            StackTarget::HL => self.registers.hl(),
        }
    }

    /// This state after a write of `value` to the operand of `POP`. A write
    /// to AF drops the low nibble.
    #[verifier::opaque]
    pub open spec fn with_stack_value(self, target: StackTarget, value: u16) -> CpuState {
        match target {
            StackTarget::AF => self.with_registers(self.registers.with_af(value)),
            StackTarget::BC => self.with_registers(self.registers.with_bc(value)),
            StackTarget::DE => self.with_registers(self.registers.with_de(value)),
            StackTarget::HL => self.with_registers(self.registers.with_hl(value)),
        }
    }

    /// The value of the operand of `ADD HL,rr`.
    #[verifier::opaque]
    pub open spec fn add_hl_value(self, target: AddHLTarget) -> u16 {
        match target {
            AddHLTarget::BC => self.registers.bc(),
            AddHLTarget::DE => self.registers.de(),
            AddHLTarget::HL => self.registers.hl(),
            AddHLTarget::SP => self.sp,
        }
    }

    /// The byte operand that an `INC` or `DEC` works on, or `None` for the
    /// 16-bit forms.
    pub open spec fn byte_operand(target: IncDecTarget) -> Option<PrefixTarget> {
        match target {
            IncDecTarget::A => Some(PrefixTarget::A),
            IncDecTarget::B => Some(PrefixTarget::B),
            IncDecTarget::C => Some(PrefixTarget::C),
            IncDecTarget::D => Some(PrefixTarget::D),
            IncDecTarget::E => Some(PrefixTarget::E),
            IncDecTarget::H => Some(PrefixTarget::H),
            IncDecTarget::L => Some(PrefixTarget::L),
            IncDecTarget::HLI => Some(PrefixTarget::HLI),
            _ => None,
        }
    }

    /// This state with the 16-bit operand of an `INC` or `DEC` moved by `d`,
    /// with wrap-around. No flag changes.
    pub open spec fn with_word_moved(self, target: IncDecTarget, d: int) -> CpuState {
        match target {
            IncDecTarget::BC => self.with_registers(
                self.registers.with_bc(offset_by(self.registers.bc(), d)),
            ),
            IncDecTarget::DE => self.with_registers(
                self.registers.with_de(offset_by(self.registers.de(), d)),
            ),
            IncDecTarget::HL => self.with_registers(
                self.registers.with_hl(offset_by(self.registers.hl(), d)),
            ),
            IncDecTarget::SP => CpuState { sp: offset_by(self.sp, d), ..self },
            _ => self,
        }
    }

    /// This state after `INC`. The byte forms set Z, N and H and keep C; the
    /// 16-bit forms change no flag.
    #[verifier::opaque]
    pub open spec fn incremented(self, target: IncDecTarget) -> CpuState {
        match CpuState::byte_operand(target) {
            Some(operand) => {
                let out = inc8(self.prefix_value(operand), self.registers.f);
                self.with_flags(out.1).with_prefix_value(operand, out.0)
            },
            None => self.with_word_moved(target, 1),
        }
    }

    /// This state after `DEC`. The byte forms set Z, N and H and keep C; the
    /// 16-bit forms change no flag.
    #[verifier::opaque]
    pub open spec fn decremented(self, target: IncDecTarget) -> CpuState {
        match CpuState::byte_operand(target) {
            Some(operand) => {
                let out = dec8(self.prefix_value(operand), self.registers.f);
                self.with_flags(out.1).with_prefix_value(operand, out.0)
            },
            None => self.with_word_moved(target, -1),
        }
    }

    /// This state after a rotate or shift of `target`. `on_accumulator` marks
    /// the one-byte forms, which leave Z clear.
    #[verifier::opaque]
    pub open spec fn with_rotation(
        self,
        kind: Rotation,
        target: PrefixTarget,
        on_accumulator: bool,
    ) -> CpuState {
        let out = rotated(kind, self.prefix_value(target), self.registers.f.carry);
        self.with_flags(rotation_flags(out.0, out.1, on_accumulator)).with_prefix_value(
            target,
            out.0,
        )
    }

    /// The address of the memory operand of a load between the accumulator
    /// and memory.
    #[verifier::opaque]
    pub open spec fn indirect_address(self, target: LoadIndirectTarget) -> u16 {
        match target {
            LoadIndirectTarget::BCI => self.registers.bc(),
            LoadIndirectTarget::DEI => self.registers.de(),
            LoadIndirectTarget::HLIPLUS => self.registers.hl(),
            LoadIndirectTarget::HLIMINUS => self.registers.hl(),
            LoadIndirectTarget::WORDI => self.next_word(),
            LoadIndirectTarget::CI => word_of(0xFF, self.registers.c),
        }
    }

    /// This state after the step of HL that follows the access through
    /// `(HL+)` or `(HL-)`; the other operands move nothing.
    #[verifier::opaque]
    pub open spec fn after_indirect(self, target: LoadIndirectTarget) -> CpuState {
        match target {
            LoadIndirectTarget::HLIPLUS => self.with_word_moved(IncDecTarget::HL, 1),
            LoadIndirectTarget::HLIMINUS => self.with_word_moved(IncDecTarget::HL, -1),
            _ => self,
        }
    }

    /// The address after a load between the accumulator and memory: three
    /// bytes on where the address follows the opcode, else one.
    pub open spec fn indirect_next(self, target: LoadIndirectTarget) -> u16 {
        if target == LoadIndirectTarget::WORDI {
            offset_by(self.pc, 3)
        } else {
            offset_by(self.pc, 1)
        }
    }

    /// The state after a load, and the address of the next instruction.
    #[verifier::opaque]
    pub open spec fn loaded(self, load_type: LoadType) -> (CpuState, u16) {
        match load_type {
            LoadType::Byte(target, source) => (
                self.with_prefix_value(
                    CpuState::load_destination(target),
                    self.load_value(source),
                ),
                if source == LoadByteSource::D8 {
                    offset_by(self.pc, 2)
                } else {
                    offset_by(self.pc, 1)
                },
            ),
            LoadType::Word(target) => (
                match target {
                    LoadWordTarget::BC => self.with_registers(
                        self.registers.with_bc(self.next_word()),
                    ),
                    LoadWordTarget::DE => self.with_registers(
                        self.registers.with_de(self.next_word()),
                    ),
                    LoadWordTarget::HL => self.with_registers(
                        self.registers.with_hl(self.next_word()),
                    ),
                    LoadWordTarget::SP => CpuState { sp: self.next_word(), ..self },
                },
                offset_by(self.pc, 3),
            ),
            LoadType::AFromIndirect(target) => (
                self.with_registers(
                    Registers { a: self.bus.read(self.indirect_address(target)), ..self.registers },
                ).after_indirect(target),
                self.indirect_next(target),
            ),
            LoadType::IndirectFromA(target) => (
                self.with_byte(self.indirect_address(target), self.registers.a).after_indirect(
                    target,
                ),
                self.indirect_next(target),
            ),
            LoadType::AFromA8 => (
                self.with_registers(
                    Registers {
                        a: self.bus.read(word_of(0xFF, self.next_byte())),
                        ..self.registers
                    },
                ),
                offset_by(self.pc, 2),
            ),
            LoadType::A8FromA => (
                self.with_byte(word_of(0xFF, self.next_byte()), self.registers.a),
                offset_by(self.pc, 2),
            ),
            LoadType::HLFromSP => {
                let out = sum_sp(self.sp, self.next_byte());
                (
                    self.with_registers(self.registers.with_hl(out.0)).with_flags(out.1),
                    offset_by(self.pc, 2),
                )
            },
            LoadType::SPFromHL => (
                CpuState { sp: self.registers.hl(), ..self },
                offset_by(self.pc, 1),
            ),
            LoadType::IndirectFromSP => (
                self.with_byte(self.next_word(), low_byte(self.sp)).with_byte(
                    offset_by(self.next_word(), 1),
                    high_byte(self.sp),
                ),
                offset_by(self.pc, 3),
            ),
        }
    }

    /// The target of a relative jump at `pc` with the displacement in
    /// `byte`: the address after the two-byte instruction, plus the signed
    /// displacement, modulo 2^16.
    pub open spec fn relative_target(pc: u16, byte: u8) -> u16 {
        offset_by(pc, 2 + signed8(byte))
    }

    /// What an instruction does: the state after it, with the program counter
    /// still at the instruction, and the address of the next instruction.
    /// `STOP` halts the machine and stays where it is.
    pub open spec fn executed(self, instr: Instruction) -> (CpuState, u16) {
        let a = self.registers.a;
        let f = self.registers.f;
        let one = offset_by(self.pc, 1);
        let two = offset_by(self.pc, 2);
        let three = offset_by(self.pc, 3);
        match instr {
            Instruction::ADD(t) => (
                self.with_result(sum8(a, self.arith_value(t), false)),
                self.arith_next(t),
            ),
            Instruction::ADC(t) => (
                self.with_result(sum8(a, self.arith_value(t), f.carry)),
                self.arith_next(t),
            ),
            Instruction::SUB(t) => (
                self.with_result(difference8(a, self.arith_value(t), false)),
                self.arith_next(t),
            ),
            Instruction::SBC(t) => (
                self.with_result(difference8(a, self.arith_value(t), f.carry)),
                self.arith_next(t),
            ),
            Instruction::AND(t) => (
                self.with_result(and8(a, self.arith_value(t))),
                self.arith_next(t),
            ),
            Instruction::OR(t) => (
                self.with_result(or8(a, self.arith_value(t))),
                self.arith_next(t),
            ),
            Instruction::XOR(t) => (
                self.with_result(xor8(a, self.arith_value(t))),
                self.arith_next(t),
            ),
            Instruction::CP(t) => (
                self.with_flags(difference8(a, self.arith_value(t), false).1),
                self.arith_next(t),
            ),
            Instruction::ADDHL(t) => {
                let out = sum16(self.registers.hl(), self.add_hl_value(t), f);
                (self.with_registers(self.registers.with_hl(out.0)).with_flags(out.1), one)
            },
            Instruction::ADDSP => {
                let out = sum_sp(self.sp, self.next_byte());
                (CpuState { sp: out.0, ..self.with_flags(out.1) }, two)
            },
            Instruction::INC(t) => (self.incremented(t), one),
            Instruction::DEC(t) => (self.decremented(t), one),
            Instruction::CCF => (
                self.with_flags(
                    Flags { subtract: false, half_carry: false, carry: !f.carry, ..f },
                ),
                one,
            ),
            Instruction::SCF => (
                self.with_flags(Flags { subtract: false, half_carry: false, carry: true, ..f }),
                one,
            ),
            Instruction::CPL => (
                self.with_result((!a, Flags { subtract: true, half_carry: true, ..f })),
                one,
            ),
            Instruction::RLCA => (
                self.with_rotation(Rotation::LeftCircular, PrefixTarget::A, true),
                one,
            ),
            Instruction::RRCA => (
                self.with_rotation(Rotation::RightCircular, PrefixTarget::A, true),
                one,
            ),
            Instruction::RLA => (self.with_rotation(Rotation::Left, PrefixTarget::A, true), one),
            Instruction::RRA => (self.with_rotation(Rotation::Right, PrefixTarget::A, true), one),
            Instruction::RLC(t) => (self.with_rotation(Rotation::LeftCircular, t, false), two),
            Instruction::RRC(t) => (self.with_rotation(Rotation::RightCircular, t, false), two),
            Instruction::RL(t) => (self.with_rotation(Rotation::Left, t, false), two),
            Instruction::RR(t) => (self.with_rotation(Rotation::Right, t, false), two),
            Instruction::SLA(t) => (self.with_rotation(Rotation::ShiftLeft, t, false), two),
            Instruction::SRA(t) => (
                self.with_rotation(Rotation::ShiftRightArithmetic, t, false),
                two,
            ),
            Instruction::SRL(t) => (self.with_rotation(Rotation::ShiftRightLogical, t, false), two),
            Instruction::SWAP(t) => (self.with_rotation(Rotation::Swap, t, false), two),
            Instruction::BIT(pos, t) => (
                self.with_flags(bit_test_flags(self.prefix_value(t), pos, f)),
                two,
            ),
            Instruction::SET(pos, t) => (
                self.with_prefix_value(t, self.prefix_value(t) | bit_mask(pos)),
                two,
            ),
            Instruction::RES(pos, t) => (
                self.with_prefix_value(t, self.prefix_value(t) & !bit_mask(pos)),
                two,
            ),
            Instruction::JP(test) => (
                self,
                if self.holds(test) {
                    self.next_word()
                } else {
                    three
                },
            ),
            Instruction::JR(test) => (
                self,
                if self.holds(test) {
                    CpuState::relative_target(self.pc, self.next_byte())
                } else {
                    two
                },
            ),
            Instruction::JPHLI => (self, self.registers.hl()),
            Instruction::LD(load_type) => self.loaded(load_type),
            Instruction::PUSH(t) => (self.pushed(self.stack_value(t)), one),
            Instruction::POP(t) => (self.popped().0.with_stack_value(t, self.popped().1), one),
            Instruction::CALL(test) => if self.holds(test) {
                (self.pushed(three), self.next_word())
            } else {
                (self, three)
            },
            Instruction::RET(test) => if self.holds(test) {
                self.popped()
            } else {
                (self, one)
            },
            Instruction::RST(t) => (self.pushed(one), t.address()),
            Instruction::RETI => (
                CpuState { interrupts: true, ..self.popped().0 },
                self.popped().1,
            ),
            Instruction::NOP => (self, one),
            Instruction::HALT => (CpuState { is_halted: true, ..self }, one),
            Instruction::DAA => (self.with_result(decimal_adjusted(a, f)), one),
            Instruction::STOP => (CpuState { is_halted: true, ..self }, self.pc),
            Instruction::DI => (CpuState { interrupts: false, ..self }, one),
            Instruction::EI => (CpuState { interrupts: true, ..self }, one),
        }
    }

    /// The opcode at the program counter: the byte to decode, and whether the
    /// prefix `0xCB` came before it.
    pub open spec fn opcode(self) -> (u8, bool) {
        let first = self.bus.read(self.pc);
        if first == 0xCB {
            (self.next_byte(), true)
        } else {
            (first, false)
        }
    }

    /// One step of the machine: the state after it and how it ended. A halted
    /// machine stays as it is. A byte that is no instruction changes nothing
    /// and is reported with its place. `STOP` halts the machine where it is
    /// and is reported. Any other instruction is run and the program counter
    /// moves to the next one.
    pub open spec fn stepped(self) -> (CpuState, Result<(), CpuError>) {
        let (byte, prefixed) = self.opcode();
        if self.is_halted {
            (self, Ok(()))
        } else {
            match decode(byte, prefixed) {
                None => (self, Err(CpuError::UnknownOpcode { pc: self.pc, byte, prefixed })),
                Some(instr) => {
                    let (after, next) = self.executed(instr);
                    if instr == Instruction::STOP {
                        (after, Err(CpuError::ProgramStop { pc: self.pc }))
                    } else {
                        (CpuState { pc: next, ..after }, Ok(()))
                    }
                },
            }
        }
    }
}

/// A word pushed on a stack that lies in memory that keeps writes is the word
/// popped next, and the pop leaves the stack pointer where it was before the
/// push.
pub proof fn lemma_push_pop(s: CpuState, value: u16)
    requires
        s.bus.wf(),
        Memory::keeps_writes(offset_by(s.sp, -1)),
        Memory::keeps_writes(offset_by(s.sp, -2)),
    ensures
        s.pushed(value).popped().1 == value,
        s.pushed(value).popped().0.sp == s.sp,
        s.pushed(value).popped().0.registers == s.registers,
{
    reveal(CpuState::pushed);
    reveal(CpuState::popped);
    reveal(offset_by);
    let first = offset_by(s.sp, -1);
    let second = offset_by(s.sp, -2);
    let high = high_byte(value);
    let low = low_byte(value);
    let written = s.bus.write(first, high);
    s.bus.lemma_write_wf(first, high);
    s.bus.lemma_read_after_write(first, high, first);
    written.lemma_read_after_write(second, low, second);
    written.lemma_read_after_write(second, low, first);
    lemma_split_join(value, 0, 0);
    assert(offset_by(second, 1) == first);
    assert(offset_by(second, 2) == s.sp);
}

/// `PUSH rr` followed by `POP rr`, on a stack that lies in memory that keeps
/// writes, leaves every register, the flags and the stack pointer as they
/// were. For AF the popped low byte loses its low nibble, which the packed
/// flags never have.
pub proof fn lemma_push_pop_pair(s: CpuState, target: StackTarget)
    requires
        s.bus.wf(),
        Memory::keeps_writes(offset_by(s.sp, -1)),
        Memory::keeps_writes(offset_by(s.sp, -2)),
    ensures
        ({
            let pushed = s.executed(Instruction::PUSH(target)).0;
            let popped = pushed.executed(Instruction::POP(target)).0;
            &&& popped.registers == s.registers
            &&& popped.sp == s.sp
            &&& popped.stack_value(target) == s.stack_value(target)
        }),
{
    reveal(CpuState::stack_value);
    reveal(CpuState::with_stack_value);
    lemma_push_pop(s, s.stack_value(target));
    s.registers.lemma_pair_write_back();
}

/// A value popped into a register pair is the pair's value afterwards; for
/// AF, the value without its low nibble.
pub proof fn lemma_pop_pair(s: CpuState, target: StackTarget, value: u16)
    ensures
        s.with_stack_value(target, value).stack_value(target) == if target == StackTarget::AF {
            value & 0xFFF0
        } else {
            value
        },
{
    reveal(CpuState::stack_value);
    reveal(CpuState::with_stack_value);
    s.registers.lemma_pair_round_trip(value);
}

/// After a taken `JR` the program counter is the address of the instruction,
/// plus 2, plus the signed displacement that follows the opcode, modulo 2^16;
/// the displacement lies between -128 and 127. After one not taken, it is the
/// address of the instruction plus 2, modulo 2^16.
pub proof fn lemma_relative_jump(s: CpuState, test: JumpTest)
    ensures
        -128 <= signed8(s.next_byte()) <= 127,
        s.holds(test) ==> s.executed(Instruction::JR(test)).1 as int == (s.pc + 2 + signed8(
            s.next_byte(),
        )) % 0x1_0000,
        !s.holds(test) ==> s.executed(Instruction::JR(test)).1 as int == (s.pc + 2) % 0x1_0000,
        s.executed(Instruction::JR(test)).0 == s,
{
    lemma_offset_by(s.pc, 2);
    lemma_offset_by(s.pc, 2 + signed8(s.next_byte()));
}

/// A step of a running machine on a defined opcode other than `STOP` ends
/// well and leaves the machine at the next instruction; a halted machine
/// does not move; only an opcode that stands for no instruction, or `STOP`,
/// ends a step with an error, and the machine then stays at that opcode. The
/// opcode reported as unknown is one of the eleven unused ones, never the
/// prefix and never a prefixed one.
pub proof fn lemma_step_outcome(s: CpuState)
    ensures
        s.is_halted ==> s.stepped() == (s, Ok::<(), CpuError>(())),
        !s.is_halted ==> (s.stepped().1 is Err <==> (decode(s.opcode().0, s.opcode().1) is None
            || decode(s.opcode().0, s.opcode().1) == Some(Instruction::STOP))),
        s.stepped().1 is Err ==> s.stepped().0.pc == s.pc,
        s.stepped().1 matches Err(CpuError::UnknownOpcode { pc, byte, prefixed }) ==> pc == s.pc
            && !prefixed && byte == s.bus.read(s.pc) && is_unused_opcode(byte),
{
    lemma_decode_defined(s.opcode().0);
}

/// The number of bytes that an instruction takes, with its prefix and its
/// operands: 2 for every prefixed instruction and for one with an 8-bit
/// immediate or displacement, 3 for one with a 16-bit immediate or address,
/// else 1.
pub open spec fn length(instr: Instruction) -> int {
    match instr {
        Instruction::ADD(t)
        | Instruction::ADC(t)
        | Instruction::SUB(t)
        | Instruction::SBC(t)
        | Instruction::AND(t)
        | Instruction::OR(t)
        | Instruction::XOR(t)
        | Instruction::CP(t) => if t == ArithTarget::D8 {
            2
        } else {
            1
        },
        Instruction::ADDSP | Instruction::JR(_) => 2,
        Instruction::JP(_) | Instruction::CALL(_) => 3,
        Instruction::LD(load_type) => match load_type {
            LoadType::Byte(_, source) => if source == LoadByteSource::D8 {
                2
            } else {
                1
            },
            LoadType::Word(_) | LoadType::IndirectFromSP => 3,
            LoadType::AFromIndirect(t) | LoadType::IndirectFromA(t) => if t
                == LoadIndirectTarget::WORDI {
                3
            } else {
                1
            },
            LoadType::AFromA8 | LoadType::A8FromA | LoadType::HLFromSP => 2,
            LoadType::SPFromHL => 1,
        },
        Instruction::BIT(_, _)
        | Instruction::SET(_, _)
        | Instruction::RES(_, _)
        | Instruction::SRL(_)
        | Instruction::RR(_)
        | Instruction::RL(_)
        | Instruction::RRC(_)
        | Instruction::RLC(_)
        | Instruction::SRA(_)
        | Instruction::SLA(_)
        | Instruction::SWAP(_) => 2,
        _ => 1,
    }
}

/// Whether the machine goes on with the instruction that follows `instr` in
/// memory: `instr` is no `STOP`, no `JP (HL)`, `RST` or `RETI`, and no jump,
/// call or return whose condition holds.
pub open spec fn falls_through(s: CpuState, instr: Instruction) -> bool {
    match instr {
        Instruction::JP(test)
        | Instruction::JR(test)
        | Instruction::CALL(test)
        | Instruction::RET(test) => !s.holds(test),
        Instruction::JPHLI | Instruction::RST(_) | Instruction::RETI | Instruction::STOP => false,
        _ => true,
    }
}

/// An instruction that falls through leaves the program counter behind its
/// last byte, modulo 2^16. So a conditional `JP` or `CALL` that is not taken
/// advances by 3, a conditional `JR` by 2 and a conditional `RET` by 1.
pub proof fn lemma_next_address(s: CpuState, instr: Instruction)
    requires
        falls_through(s, instr),
    ensures
        s.executed(instr).1 == offset_by(s.pc, length(instr)),
        s.executed(instr).1 as int == (s.pc + length(instr)) % 0x1_0000,
{
    reveal(CpuState::loaded);
    lemma_offset_by(s.pc, length(instr));
}

/// After an arithmetic or logic instruction that writes the accumulator, and
/// after `DAA`, the zero flag says whether the accumulator is zero; after
/// `CP` it says whether the accumulator equals the operand.
pub proof fn lemma_zero_after_arithmetic(s: CpuState, instr: Instruction)
    requires
        is_alu(instr) || instr == Instruction::DAA,
    ensures
        !(instr is CP) ==> (s.executed(instr).0.registers.f.zero <==> s.executed(
            instr,
        ).0.registers.a == 0),
        instr matches Instruction::CP(t) ==> (s.executed(instr).0.registers.f.zero
            <==> s.registers.a == s.arith_value(t)),
        instr matches Instruction::CP(t) ==> s.executed(instr).0.registers.a == s.registers.a,
{
    reveal(sum8);
    reveal(difference8);
    reveal(decimal_adjusted);
}

/// The flags that an instruction leaves alone. `INC` and `DEC` keep C, and
/// keep every flag on a 16-bit operand; `ADD HL,rr` keeps Z; `BIT` keeps C;
/// `CPL` keeps Z and C; `SCF` and `CCF` keep Z; `SET`, `RES`, `PUSH`, the
/// jumps, calls and returns but `RETI`, `NOP`, `HALT`, `DI` and `EI` keep
/// every flag.
pub proof fn lemma_flags_kept(s: CpuState, instr: Instruction)
    ensures
        ({
            let before = s.registers.f;
            let after = s.executed(instr).0.registers.f;
            &&& (instr is INC || instr is DEC || instr is BIT) ==> after.carry == before.carry
            &&& (instr matches Instruction::INC(t) && CpuState::byte_operand(t) is None)
                ==> after == before
            &&& (instr matches Instruction::DEC(t) && CpuState::byte_operand(t) is None)
                ==> after == before
            &&& instr is ADDHL ==> after.zero == before.zero
            &&& instr is CPL ==> after.zero == before.zero && after.carry == before.carry
            &&& (instr is SCF || instr is CCF) ==> after.zero == before.zero
            &&& (instr is SET || instr is RES || instr is PUSH || instr is JP || instr is JR
                || instr is JPHLI || instr is CALL || instr is RET || instr is RST || instr is NOP
                || instr is HALT || instr is DI || instr is EI) ==> after == before
        }),
{
    reveal(CpuState::incremented);
    reveal(CpuState::decremented);
    reveal(CpuState::with_prefix_value);
    reveal(CpuState::pushed);
    reveal(CpuState::popped);
    reveal(inc8);
    reveal(dec8);
    reveal(sum16);
}

/// Whether `instr` is an arithmetic or logic instruction on the accumulator and an
/// operand.
pub open spec fn is_alu(instr: Instruction) -> bool {
    instr is ADD
        || instr is ADC
        || instr is SUB
        || instr is SBC
        || instr is AND
        || instr is OR
        || instr is XOR
        || instr is CP
}

/// Whether `instr` is one of the one-byte instructions on the accumulator or the
/// flags.
pub open spec fn is_accumulator(instr: Instruction) -> bool {
    instr is RLCA
        || instr is RRCA
        || instr is RLA
        || instr is RRA
        || instr is DAA
        || instr is CPL
        || instr is SCF
        || instr is CCF
}

/// Whether `instr` is a prefixed instruction.
pub open spec fn is_prefixed(instr: Instruction) -> bool {
    instr is RLC
        || instr is RRC
        || instr is RL
        || instr is RR
        || instr is SLA
        || instr is SRA
        || instr is SWAP
        || instr is SRL
        || instr is BIT
        || instr is RES
        || instr is SET
}

/// Whether `instr` is a jump, call or return.
pub open spec fn is_control(instr: Instruction) -> bool {
    instr is JP
        || instr is JR
        || instr is JPHLI
        || instr is CALL
        || instr is RET
        || instr is RST
        || instr is RETI
}

/// Whether `instr` is `INC`, `DEC`, `ADD HL,rr` or `ADD SP,r8`.
pub open spec fn is_counting(instr: Instruction) -> bool {
    instr is INC
        || instr is DEC
        || instr is ADDHL
        || instr is ADDSP
}

impl CPU {
    /// The state of the machine as plain values.
    pub open spec fn view(&self) -> CpuState {
        CpuState {
            pc: self.pc,
            sp: self.sp,
            registers: self.registers,
            bus: self.bus@,
            interrupts: self.interrupts,
            is_halted: self.is_halted,
        }
    }

    /// A processor at reset over a bus at power-on: the program counter at
    /// `0x0000`, the stack pointer at `0xFFFE`, registers and flags zero,
    /// interrupts disabled, running. `bios` is the boot ROM, exactly 256
    /// bytes; `game` is the cartridge image, at least 32 KiB.
    pub fn new(bios: Vec<u8>, game: Vec<u8>) -> (cpu: CPU)
        requires
            bios.len() == 0x100,
            game.len() >= 0x8000,
        ensures
            cpu@ == CpuState::reset(Memory::power_on(bios@, game@)),
            cpu@.bus.wf(),
    {
        CPU {
            pc: 0x0000,
            sp: 0xFFFE,
            registers: Registers::new(),
            bus: MemoryBus::new(bios, game),
            interrupts: false,
            is_halted: false,
        }
    }

    /// Reads the byte that follows the opcode.
    pub fn read_next_byte(&self) -> (byte: u8)
        ensures
            byte == self@.next_byte(),
    {
        self.bus.read_byte(forward(self.pc, 1))
    }

    /// Reads the little-endian word that follows the opcode.
    pub fn read_next_word(&self) -> (word: u16)
        ensures
            word == self@.next_word(),
    {
        let lower_byte: u8 = self.read_next_byte();
        let upper_byte: u8 = self.bus.read_byte(forward(self.pc, 2));
        join(upper_byte, lower_byte)
    }

    /// Whether the condition of a jump, call or return holds.
    pub fn test(&self, test: JumpTest) -> (jump: bool)
        ensures
            jump == self@.holds(test),
    {
        proof {
            reveal(CpuState::holds);
        }
        match test {
            JumpTest::NotZero => !self.registers.f.zero,
            JumpTest::Zero => self.registers.f.zero,
            JumpTest::NotCarry => !self.registers.f.carry,
            JumpTest::Carry => self.registers.f.carry,
            JumpTest::Unconditional => true,
        }
    }

    /// `ADD A,x`.
    pub fn add(&mut self, target: ArithTarget)
        ensures
            final(self)@ == old(self)@.with_result(
                sum8(old(self).registers.a, old(self)@.arith_value(target), false),
            ),
    {
        let value: u8 = self.get_register_from_arith(target);
        let result: u8 = self.add_a(value);
        self.registers.a = result;
    }

    /// `ADC A,x`: the carry flag is part of the sum, and H and C are those of
    /// the whole sum.
    pub fn adc(&mut self, target: ArithTarget)
        ensures
            final(self)@ == old(self)@.with_result(
                sum8(
                    old(self).registers.a,
                    old(self)@.arith_value(target),
                    old(self).registers.f.carry,
                ),
            ),
    {
        let value: u8 = self.get_register_from_arith(target);
        let result: u8 = self.adc_a(value);
        self.registers.a = result;
    }

    /// `SUB x`.
    pub fn sub(&mut self, target: ArithTarget)
        ensures
            final(self)@ == old(self)@.with_result(
                difference8(old(self).registers.a, old(self)@.arith_value(target), false),
            ),
    {
        let value: u8 = self.get_register_from_arith(target);
        let result: u8 = self.sub_a(value);
        self.registers.a = result;
    }

    /// `SBC A,x`: the carry flag is part of the difference, and H and C are
    /// those of the whole difference.
    pub fn sbc(&mut self, target: ArithTarget)
        ensures
            final(self)@ == old(self)@.with_result(
                difference8(
                    old(self).registers.a,
                    old(self)@.arith_value(target),
                    old(self).registers.f.carry,
                ),
            ),
    {
        let value: u8 = self.get_register_from_arith(target);
        let result: u8 = self.sbc_a(value);
        self.registers.a = result;
    }

    /// `CP x`: the flags of `SUB x`, with the accumulator kept.
    pub fn cp(&mut self, target: ArithTarget)
        ensures
            final(self)@ == old(self)@.with_flags(
                difference8(old(self).registers.a, old(self)@.arith_value(target), false).1,
            ),
    {
        let value: u8 = self.get_register_from_arith(target);
        let _ = self.sub_a(value);
    }

    /// `INC`, on a byte or on a 16-bit register.
    pub fn inc(&mut self, target: IncDecTarget)
        ensures
            final(self)@ == old(self)@.incremented(target),
    {
        proof {
            reveal(CpuState::incremented);
            reveal(CpuState::with_prefix_value);
            reveal(CpuState::prefix_value);
        }
        match target {
            IncDecTarget::BC => {
                let value: u16 = self.registers.get_bc();
                self.registers.set_bc(forward(value, 1));
            },
            IncDecTarget::DE => {
                let value: u16 = self.registers.get_de();
                self.registers.set_de(forward(value, 1));
            },
            IncDecTarget::HL => {
                let value: u16 = self.registers.get_hl();
                self.registers.set_hl(forward(value, 1));
            },
            IncDecTarget::SP => {
                self.sp = forward(self.sp, 1);
            },
            IncDecTarget::A => {
                let (result, flags) = increment8(self.registers.a, self.registers.f);
                self.registers.f = flags;
                self.registers.a = result;
            },
            IncDecTarget::B => {
                let (result, flags) = increment8(self.registers.b, self.registers.f);
                self.registers.f = flags;
                self.registers.b = result;
            },
            IncDecTarget::C => {
                let (result, flags) = increment8(self.registers.c, self.registers.f);
                self.registers.f = flags;
                self.registers.c = result;
            },
            IncDecTarget::D => {
                let (result, flags) = increment8(self.registers.d, self.registers.f);
                self.registers.f = flags;
                self.registers.d = result;
            },
            IncDecTarget::E => {
                let (result, flags) = increment8(self.registers.e, self.registers.f);
                self.registers.f = flags;
                self.registers.e = result;
            },
            IncDecTarget::H => {
                let (result, flags) = increment8(self.registers.h, self.registers.f);
                self.registers.f = flags;
                self.registers.h = result;
            },
            IncDecTarget::L => {
                let (result, flags) = increment8(self.registers.l, self.registers.f);
                self.registers.f = flags;
                self.registers.l = result;
            },
            IncDecTarget::HLI => {
                let address: u16 = self.registers.get_hl();
                let value: u8 = self.bus.read_byte(address);
                let (result, flags) = increment8(value, self.registers.f);
                self.registers.f = flags;
                self.bus.set_byte(address, result);
            },
        }
    }

    /// `DEC`, on a byte or on a 16-bit register.
    pub fn dec(&mut self, target: IncDecTarget)
        ensures
            final(self)@ == old(self)@.decremented(target),
    {
        proof {
            reveal(CpuState::decremented);
            reveal(CpuState::with_prefix_value);
            reveal(CpuState::prefix_value);
        }
        match target {
            IncDecTarget::BC => {
                let value: u16 = self.registers.get_bc();
                self.registers.set_bc(backward(value, 1));
            },
            IncDecTarget::DE => {
                let value: u16 = self.registers.get_de();
                self.registers.set_de(backward(value, 1));
            },
            IncDecTarget::HL => {
                let value: u16 = self.registers.get_hl();
                self.registers.set_hl(backward(value, 1));
            },
            IncDecTarget::SP => {
                self.sp = backward(self.sp, 1);
            },
            IncDecTarget::A => {
                let (result, flags) = decrement8(self.registers.a, self.registers.f);
                self.registers.f = flags;
                self.registers.a = result;
            },
            IncDecTarget::B => {
                let (result, flags) = decrement8(self.registers.b, self.registers.f);
                self.registers.f = flags;
                self.registers.b = result;
            },
            IncDecTarget::C => {
                let (result, flags) = decrement8(self.registers.c, self.registers.f);
                self.registers.f = flags;
                self.registers.c = result;
            },
            IncDecTarget::D => {
                let (result, flags) = decrement8(self.registers.d, self.registers.f);
                self.registers.f = flags;
                self.registers.d = result;
            },
            IncDecTarget::E => {
                let (result, flags) = decrement8(self.registers.e, self.registers.f);
                self.registers.f = flags;
                self.registers.e = result;
            },
            IncDecTarget::H => {
                let (result, flags) = decrement8(self.registers.h, self.registers.f);
                self.registers.f = flags;
                self.registers.h = result;
            },
            IncDecTarget::L => {
                let (result, flags) = decrement8(self.registers.l, self.registers.f);
                self.registers.f = flags;
                self.registers.l = result;
            },
            IncDecTarget::HLI => {
                let address: u16 = self.registers.get_hl();
                let value: u8 = self.bus.read_byte(address);
                let (result, flags) = decrement8(value, self.registers.f);
                self.registers.f = flags;
                self.bus.set_byte(address, result);
            },
        }
    }

    /// `AND x`.
    pub fn and(&mut self, target: ArithTarget)
        ensures
            final(self)@ == old(self)@.with_result(
                and8(old(self).registers.a, old(self)@.arith_value(target)),
            ),
    {
        let value: u8 = self.get_register_from_arith(target);
        self.registers.a = self.registers.a & value;
        let zero = self.registers.a == 0;
        self.registers.f.set(Some(zero), Some(false), Some(true), Some(false));
    }

    /// `OR x`.
    pub fn or(&mut self, target: ArithTarget)
        ensures
            final(self)@ == old(self)@.with_result(
                or8(old(self).registers.a, old(self)@.arith_value(target)),
            ),
    {
        let value: u8 = self.get_register_from_arith(target);
        self.registers.a = self.registers.a | value;
        let zero = self.registers.a == 0;
        self.registers.f.set(Some(zero), Some(false), Some(false), Some(false));
    }

    /// `XOR x`.
    pub fn xor(&mut self, target: ArithTarget)
        ensures
            final(self)@ == old(self)@.with_result(
                xor8(old(self).registers.a, old(self)@.arith_value(target)),
            ),
    {
        let value: u8 = self.get_register_from_arith(target);
        self.registers.a = self.registers.a ^ value;
        let zero = self.registers.a == 0;
        self.registers.f.set(Some(zero), Some(false), Some(false), Some(false));
    }

    /// The address after `JP cc,nn`: the word that follows the opcode where
    /// the jump is taken, else three bytes on.
    pub fn jp(&self, jump: bool) -> (next_pc: u16)
        ensures
            next_pc == if jump {
                self@.next_word()
            } else {
                offset_by(self.pc, 3)
            },
    {
        if jump {
            self.read_next_word()
        } else {
            forward(self.pc, 3)
        }
    }

    /// The address after `JR cc,r8`: where the jump is taken, the address
    /// after the instruction plus the signed displacement that follows the
    /// opcode, modulo 2^16; else two bytes on.
    pub fn jr(&self, jump: bool) -> (next_pc: u16)
        ensures
            next_pc == if jump {
                CpuState::relative_target(self.pc, self@.next_byte())
            } else {
                offset_by(self.pc, 2)
            },
            jump ==> next_pc as int == (self.pc + 2 + signed8(self@.next_byte())) % 0x1_0000,
    {
        let next_pc: u16 = forward(self.pc, 2);
        if jump {
            let offset: u16 = sign_extend(self.read_next_byte());
            proof {
                reveal(offset_by);
                assert(next_pc.wrapping_add(offset) == offset_by(
                    next_pc,
                    signed8(self@.next_byte()),
                ));
            }
            next_pc.wrapping_add(offset)
        } else {
            next_pc
        }
    }

    /// `CALL cc,nn`: where the call is taken, pushes the address three bytes
    /// on and gives the word that follows the opcode; else gives the address
    /// three bytes on.
    pub fn call(&mut self, jump: bool) -> (next_pc: u16)
        ensures
            jump ==> final(self)@ == old(self)@.pushed(offset_by(old(self).pc, 3)) && next_pc
                == old(self)@.next_word(),
            !jump ==> final(self)@ == old(self)@ && next_pc == offset_by(old(self).pc, 3),
    {
        let next_pc: u16 = forward(self.pc, 3);
        if jump {
            let target: u16 = self.read_next_word();
            self.push(next_pc);
            target
        } else {
            next_pc
        }
    }

    /// `RET cc`: where the return is taken, pops the address; else gives the
    /// address one byte on.
    pub fn ret(&mut self, jump: bool) -> (next_pc: u16)
        ensures
            jump ==> (final(self)@, next_pc) == old(self)@.popped(),
            !jump ==> final(self)@ == old(self)@ && next_pc == offset_by(old(self).pc, 1),
    {
        if jump {
            self.pop()
        } else {
            forward(self.pc, 1)
        }
    }

    /// Reads an operand of an arithmetic operation.
    pub fn get_register_from_arith(&self, target: ArithTarget) -> (value: u8)
        ensures
            value == self@.arith_value(target),
    {
        proof {
            reveal(CpuState::arith_value);
        }
        match target {
            ArithTarget::A => self.registers.a,
            ArithTarget::B => self.registers.b,
            ArithTarget::C => self.registers.c,
            ArithTarget::D => self.registers.d,
            ArithTarget::E => self.registers.e,
            ArithTarget::H => self.registers.h,
            ArithTarget::L => self.registers.l,
            ArithTarget::D8 => self.read_next_byte(),
            ArithTarget::HLI => self.bus.read_byte(self.registers.get_hl()),
        }
    }

    /// Reads an operand of a prefixed operation.
    pub fn get_register_from_prefix(&self, target: PrefixTarget) -> (value: u8)
        ensures
            value == self@.prefix_value(target),
    {
        proof {
            reveal(CpuState::prefix_value);
        }
        match target {
            PrefixTarget::A => self.registers.a,
            PrefixTarget::B => self.registers.b,
            PrefixTarget::C => self.registers.c,
            PrefixTarget::D => self.registers.d,
            PrefixTarget::E => self.registers.e,
            PrefixTarget::H => self.registers.h,
            PrefixTarget::L => self.registers.l,
            PrefixTarget::HLI => self.bus.read_byte(self.registers.get_hl()),
        }
    }

    /// Writes an operand of a prefixed operation.
    pub fn set_register_from_prefix(&mut self, target: PrefixTarget, value: u8)
        ensures
            final(self)@ == old(self)@.with_prefix_value(target, value),
    {
        proof {
            reveal(CpuState::with_prefix_value);
        }
        match target {
            PrefixTarget::A => {
                self.registers.a = value;
            },
            PrefixTarget::B => {
                self.registers.b = value;
            },
            PrefixTarget::C => {
                self.registers.c = value;
            },
            PrefixTarget::D => {
                self.registers.d = value;
            },
            PrefixTarget::E => {
                self.registers.e = value;
            },
            PrefixTarget::H => {
                self.registers.h = value;
            },
            PrefixTarget::L => {
                self.registers.l = value;
            },
            PrefixTarget::HLI => {
                let address: u16 = self.registers.get_hl();
                self.bus.set_byte(address, value);
            },
        }
    }

    /// Reads the source of an 8-bit load.
    pub fn get_register_from_load_byte(&self, source: LoadByteSource) -> (value: u8)
        ensures
            value == self@.load_value(source),
    {
        proof {
            reveal(CpuState::load_value);
        }
        match source {
            LoadByteSource::A => self.registers.a,
            LoadByteSource::B => self.registers.b,
            LoadByteSource::C => self.registers.c,
            LoadByteSource::D => self.registers.d,
            LoadByteSource::E => self.registers.e,
            LoadByteSource::H => self.registers.h,
            LoadByteSource::L => self.registers.l,
            LoadByteSource::D8 => self.read_next_byte(),
            LoadByteSource::HLI => self.bus.read_byte(self.registers.get_hl()),
        }
    }

    /// Writes the destination of an 8-bit load.
    pub fn set_register_from_load_byte(&mut self, target: LoadByteTarget, value: u8)
        ensures
            final(self)@ == old(self)@.with_prefix_value(
                CpuState::load_destination(target),
                value,
            ),
    {
        proof {
            reveal(CpuState::with_prefix_value);
        }
        match target {
            LoadByteTarget::A => self.registers.a = value,
            LoadByteTarget::B => self.registers.b = value,
            LoadByteTarget::C => self.registers.c = value,
            LoadByteTarget::D => self.registers.d = value,
            LoadByteTarget::E => self.registers.e = value,
            LoadByteTarget::H => self.registers.h = value,
            LoadByteTarget::L => self.registers.l = value,
            LoadByteTarget::HLI => {
                let address: u16 = self.registers.get_hl();
                self.bus.set_byte(address, value);
            },
        }
    }

    /// Adds `value` to the accumulator: sets the flags and gives the sum; the
    /// accumulator itself is left to the caller.
    pub fn add_a(&mut self, value: u8) -> (result: u8)
        ensures
            result == sum8(old(self).registers.a, value, false).0,
            final(self)@ == old(self)@.with_flags(sum8(old(self).registers.a, value, false).1),
    {
        let (result, flags) = add8(self.registers.a, value, false);
        self.registers.f = flags;
        result
    }

    /// Adds `value` and the carry flag to the accumulator: sets the flags and
    /// gives the sum.
    pub fn adc_a(&mut self, value: u8) -> (result: u8)
        ensures
            result == sum8(old(self).registers.a, value, old(self).registers.f.carry).0,
            final(self)@ == old(self)@.with_flags(
                sum8(old(self).registers.a, value, old(self).registers.f.carry).1,
            ),
    {
        let (result, flags) = add8(self.registers.a, value, self.registers.f.carry);
        self.registers.f = flags;
        result
    }

    /// Adds `value` to HL: sets the flags and gives the sum; HL itself is
    /// left to the caller.
    pub fn add_hl(&mut self, value: u16) -> (result: u16)
        ensures
            result == sum16(old(self).registers.hl(), value, old(self).registers.f).0,
            final(self)@ == old(self)@.with_flags(
                sum16(old(self).registers.hl(), value, old(self).registers.f).1,
            ),
    {
        let (result, flags) = add16(self.registers.get_hl(), value, self.registers.f);
        self.registers.f = flags;
        result
    }

    /// Subtracts `value` from the accumulator: sets the flags and gives the
    /// difference; the accumulator itself is left to the caller.
    pub fn sub_a(&mut self, value: u8) -> (result: u8)
        ensures
            result == difference8(old(self).registers.a, value, false).0,
            final(self)@ == old(self)@.with_flags(
                difference8(old(self).registers.a, value, false).1,
            ),
    {
        let (result, flags) = sub8(self.registers.a, value, false);
        self.registers.f = flags;
        result
    }

    /// Subtracts `value` and the carry flag from the accumulator: sets the
    /// flags and gives the difference.
    pub fn sbc_a(&mut self, value: u8) -> (result: u8)
        ensures
            result == difference8(old(self).registers.a, value, old(self).registers.f.carry).0,
            final(self)@ == old(self)@.with_flags(
                difference8(old(self).registers.a, value, old(self).registers.f.carry).1,
            ),
    {
        let (result, flags) = sub8(self.registers.a, value, self.registers.f.carry);
        self.registers.f = flags;
        result
    }

    /// Rotates or shifts an operand in place and sets the flags.
    /// `on_accumulator` marks the one-byte forms, which leave Z clear.
    pub fn rotate_operand(&mut self, kind: Rotation, target: PrefixTarget, on_accumulator: bool)
        ensures
            final(self)@ == old(self)@.with_rotation(kind, target, on_accumulator),
    {
        proof {
            reveal(CpuState::with_rotation);
        }
        let value: u8 = self.get_register_from_prefix(target);
        let (result, carry) = rotate(kind, value, self.registers.f.carry);
        let zero = !on_accumulator && result == 0;
        self.registers.f.set(Some(zero), Some(false), Some(false), Some(carry));
        self.set_register_from_prefix(target, result);
    }

    /// The address of the memory operand of a load between the accumulator
    /// and memory.
    pub fn indirect_address(&self, target: LoadIndirectTarget) -> (address: u16)
        ensures
            address == self@.indirect_address(target),
    {
        proof {
            reveal(CpuState::indirect_address);
        }
        match target {
            LoadIndirectTarget::BCI => self.registers.get_bc(),
            LoadIndirectTarget::DEI => self.registers.get_de(),
            LoadIndirectTarget::HLIPLUS => self.registers.get_hl(),
            LoadIndirectTarget::HLIMINUS => self.registers.get_hl(),
            LoadIndirectTarget::WORDI => self.read_next_word(),
            LoadIndirectTarget::CI => join(0xFF, self.registers.c),
        }
    }

    /// Steps HL after an access through `(HL+)` or `(HL-)`.
    pub fn step_indirect(&mut self, target: LoadIndirectTarget)
        ensures
            final(self)@ == old(self)@.after_indirect(target),
    {
        proof {
            reveal(CpuState::after_indirect);
        }
        match target {
            LoadIndirectTarget::HLIPLUS => {
                let value: u16 = self.registers.get_hl();
                self.registers.set_hl(forward(value, 1));
            },
            LoadIndirectTarget::HLIMINUS => {
                let value: u16 = self.registers.get_hl();
                self.registers.set_hl(backward(value, 1));
            },
            _ => {},
        }
    }

    /// Runs a load and gives the address of the next instruction.
    pub fn load(&mut self, load_type: LoadType) -> (next_pc: u16)
        ensures
            (final(self)@, next_pc) == old(self)@.loaded(load_type),
    {
        proof {
            reveal(CpuState::loaded);
            reveal(CpuState::with_prefix_value);
        }
        match load_type {
            LoadType::Byte(target, source) => {
                let value: u8 = self.get_register_from_load_byte(source);
                self.set_register_from_load_byte(target, value);
                match source {
                    LoadByteSource::D8 => forward(self.pc, 2),
                    _ => forward(self.pc, 1),
                }
            },
            LoadType::Word(target) => {
                let value: u16 = self.read_next_word();
                match target {
                    LoadWordTarget::BC => self.registers.set_bc(value),
                    LoadWordTarget::DE => self.registers.set_de(value),
                    LoadWordTarget::HL => self.registers.set_hl(value),
                    LoadWordTarget::SP => self.sp = value,
                }
                forward(self.pc, 3)
            },
            LoadType::AFromIndirect(target) => {
                let address: u16 = self.indirect_address(target);
                let next_pc: u16 = match target {
                    LoadIndirectTarget::WORDI => forward(self.pc, 3),
                    _ => forward(self.pc, 1),
                };
                self.registers.a = self.bus.read_byte(address);
                self.step_indirect(target);
                next_pc
            },
            LoadType::IndirectFromA(target) => {
                let address: u16 = self.indirect_address(target);
                let next_pc: u16 = match target {
                    LoadIndirectTarget::WORDI => forward(self.pc, 3),
                    _ => forward(self.pc, 1),
                };
                self.bus.set_byte(address, self.registers.a);
                self.step_indirect(target);
                next_pc
            },
            LoadType::AFromA8 => {
                let address: u16 = join(0xFF, self.read_next_byte());
                self.registers.a = self.bus.read_byte(address);
                forward(self.pc, 2)
            },
            LoadType::A8FromA => {
                let address: u16 = join(0xFF, self.read_next_byte());
                self.bus.set_byte(address, self.registers.a);
                forward(self.pc, 2)
            },
            LoadType::HLFromSP => {
                let (result, flags) = add_sp(self.sp, self.read_next_byte());
                self.registers.set_hl(result);
                self.registers.f = flags;
                forward(self.pc, 2)
            },
            LoadType::SPFromHL => {
                self.sp = self.registers.get_hl();
                forward(self.pc, 1)
            },
            LoadType::IndirectFromSP => {
                let address: u16 = self.read_next_word();
                self.bus.set_byte(address, low(self.sp));
                self.bus.set_byte(forward(address, 1), high(self.sp));
                forward(self.pc, 3)
            },
        }
    }

    /// Runs one decoded instruction. The program counter stays at the
    /// instruction; the result is the address of the next one. `STOP` halts
    /// the machine and is reported as an error.
    pub fn execute(&mut self, instr: Instruction) -> (outcome: Result<u16, CpuError>)
        ensures
            final(self)@ == old(self)@.executed(instr).0,
            instr == Instruction::STOP ==> outcome == Err::<u16, CpuError>(
                CpuError::ProgramStop { pc: old(self).pc },
            ),
            instr != Instruction::STOP ==> outcome == Ok::<u16, CpuError>(
                old(self)@.executed(instr).1,
            ),
    {
        proof {
            reveal(CpuState::stack_value);
            reveal(CpuState::with_stack_value);
        }
        let one: u16 = forward(self.pc, 1);
        let next_pc: u16 = match instr {
            Instruction::ADD(..)
            | Instruction::ADC(..)
            | Instruction::SUB(..)
            | Instruction::SBC(..)
            | Instruction::AND(..)
            | Instruction::OR(..)
            | Instruction::XOR(..)
            | Instruction::CP(..) => self.execute_alu(instr),
            Instruction::RLCA
            | Instruction::RRCA
            | Instruction::RLA
            | Instruction::RRA
            | Instruction::DAA
            | Instruction::CPL
            | Instruction::SCF
            | Instruction::CCF => self.execute_accumulator(instr),
            Instruction::RLC(..)
            | Instruction::RRC(..)
            | Instruction::RL(..)
            | Instruction::RR(..)
            | Instruction::SLA(..)
            | Instruction::SRA(..)
            | Instruction::SWAP(..)
            | Instruction::SRL(..)
            | Instruction::BIT(..)
            | Instruction::RES(..)
            | Instruction::SET(..) => self.execute_prefixed(instr),
            Instruction::JP(..)
            | Instruction::JR(..)
            | Instruction::JPHLI
            | Instruction::CALL(..)
            | Instruction::RET(..)
            | Instruction::RST(..)
            | Instruction::RETI => self.execute_control(instr),
            Instruction::INC(..)
            | Instruction::DEC(..)
            | Instruction::ADDHL(..)
            | Instruction::ADDSP => self.execute_counting(instr),
            Instruction::LD(load_type) => self.load(load_type),
            Instruction::PUSH(target) => {
                let value: u16 = match target {
                    StackTarget::AF => self.registers.get_af(),
                    StackTarget::BC => self.registers.get_bc(),
                    StackTarget::DE => self.registers.get_de(),
                    StackTarget::HL => self.registers.get_hl(),
                };
                self.push(value);
                one
            },
            Instruction::POP(target) => {
                let result: u16 = self.pop();
                match target {
                    StackTarget::AF => self.registers.set_af(result),
                    StackTarget::BC => self.registers.set_bc(result),
                    StackTarget::DE => self.registers.set_de(result),
                    StackTarget::HL => self.registers.set_hl(result),
                }
                one
            },
            Instruction::NOP => one,
            Instruction::HALT => {
                self.is_halted = true;
                one
            },
            Instruction::STOP => {
                self.is_halted = true;
                return Err(CpuError::ProgramStop { pc: self.pc });
            },
            Instruction::DI => {
                self.interrupts = false;
                one
            },
            Instruction::EI => {
                self.interrupts = true;
                one
            },
        };
        Ok(next_pc)
    }

    /// Runs an arithmetic or logic instruction on the accumulator and an
    /// operand, and gives the address of the next instruction.
    fn execute_alu(&mut self, instr: Instruction) -> (next_pc: u16)
        requires
            is_alu(instr),
        ensures
            (final(self)@, next_pc) == old(self)@.executed(instr),
    {
        match instr {
            Instruction::ADD(target) => {
                let next: u16 = self.after_arith(target);
                self.add(target);
                next
            },
            Instruction::ADC(target) => {
                let next: u16 = self.after_arith(target);
                self.adc(target);
                next
            },
            Instruction::SUB(target) => {
                let next: u16 = self.after_arith(target);
                self.sub(target);
                next
            },
            Instruction::SBC(target) => {
                let next: u16 = self.after_arith(target);
                self.sbc(target);
                next
            },
            Instruction::AND(target) => {
                let next: u16 = self.after_arith(target);
                self.and(target);
                next
            },
            Instruction::OR(target) => {
                let next: u16 = self.after_arith(target);
                self.or(target);
                next
            },
            Instruction::XOR(target) => {
                let next: u16 = self.after_arith(target);
                self.xor(target);
                next
            },
            Instruction::CP(target) => {
                let next: u16 = self.after_arith(target);
                self.cp(target);
                next
            },
            _ => unreached(),
        }
    }

    /// Runs one of the one-byte instructions on the accumulator or the flags,
    /// and gives the address of the next instruction.
    fn execute_accumulator(&mut self, instr: Instruction) -> (next_pc: u16)
        requires
            is_accumulator(instr),
        ensures
            (final(self)@, next_pc) == old(self)@.executed(instr),
    {
        let one: u16 = forward(self.pc, 1);
        match instr {
            Instruction::RLCA => {
                self.rotate_operand(Rotation::LeftCircular, PrefixTarget::A, true);
                one
            },
            Instruction::RRCA => {
                self.rotate_operand(Rotation::RightCircular, PrefixTarget::A, true);
                one
            },
            Instruction::RLA => {
                self.rotate_operand(Rotation::Left, PrefixTarget::A, true);
                one
            },
            Instruction::RRA => {
                self.rotate_operand(Rotation::Right, PrefixTarget::A, true);
                one
            },
            Instruction::DAA => {
                let (result, flags) = decimal_adjust(self.registers.a, self.registers.f);
                self.registers.a = result;
                self.registers.f = flags;
                one
            },
            Instruction::CPL => {
                self.registers.a = !self.registers.a;
                self.registers.f.set(None, Some(true), Some(true), None);
                one
            },
            Instruction::SCF => {
                self.registers.f.set(None, Some(false), Some(false), Some(true));
                one
            },
            Instruction::CCF => {
                let carry = !self.registers.f.carry;
                self.registers.f.set(None, Some(false), Some(false), Some(carry));
                one
            },
            _ => unreached(),
        }
    }

    /// Runs a prefixed instruction: a rotate, a shift or a bit operation on
    /// an operand. Gives the address of the next instruction.
    fn execute_prefixed(&mut self, instr: Instruction) -> (next_pc: u16)
        requires
            is_prefixed(instr),
        ensures
            (final(self)@, next_pc) == old(self)@.executed(instr),
    {
        let two: u16 = forward(self.pc, 2);
        match instr {
            Instruction::RLC(target) => {
                self.rotate_operand(Rotation::LeftCircular, target, false);
                two
            },
            Instruction::RRC(target) => {
                self.rotate_operand(Rotation::RightCircular, target, false);
                two
            },
            Instruction::RL(target) => {
                self.rotate_operand(Rotation::Left, target, false);
                two
            },
            Instruction::RR(target) => {
                self.rotate_operand(Rotation::Right, target, false);
                two
            },
            Instruction::SLA(target) => {
                self.rotate_operand(Rotation::ShiftLeft, target, false);
                two
            },
            Instruction::SRA(target) => {
                self.rotate_operand(Rotation::ShiftRightArithmetic, target, false);
                two
            },
            Instruction::SWAP(target) => {
                self.rotate_operand(Rotation::Swap, target, false);
                two
            },
            Instruction::SRL(target) => {
                self.rotate_operand(Rotation::ShiftRightLogical, target, false);
                two
            },
            Instruction::BIT(pos, target) => {
                let value: u8 = self.get_register_from_prefix(target);
                let bit = test_bit(value, pos);
                self.registers.f.set(Some(!bit), Some(false), Some(true), None);
                two
            },
            Instruction::RES(pos, target) => {
                let value: u8 = self.get_register_from_prefix(target);
                self.set_register_from_prefix(target, reset_bit(value, pos));
                two
            },
            Instruction::SET(pos, target) => {
                let value: u8 = self.get_register_from_prefix(target);
                self.set_register_from_prefix(target, set_bit(value, pos));
                two
            },
            _ => unreached(),
        }
    }

    /// Runs a jump, call or return, and gives the address of the next
    /// instruction.
    fn execute_control(&mut self, instr: Instruction) -> (next_pc: u16)
        requires
            is_control(instr),
        ensures
            (final(self)@, next_pc) == old(self)@.executed(instr),
    {
        let one: u16 = forward(self.pc, 1);
        match instr {
            Instruction::JP(test) => {
                let jump_condition = self.test(test);
                self.jp(jump_condition)
            },
            Instruction::JR(test) => {
                let jump_condition = self.test(test);
                self.jr(jump_condition)
            },
            Instruction::JPHLI => self.registers.get_hl(),
            Instruction::CALL(test) => {
                let jump_condition = self.test(test);
                self.call(jump_condition)
            },
            Instruction::RET(test) => {
                let jump_condition = self.test(test);
                self.ret(jump_condition)
            },
            Instruction::RST(target) => {
                self.push(one);
                target.vector()
            },
            Instruction::RETI => {
                let address: u16 = self.pop();
                self.interrupts = true;
                address
            },
            _ => unreached(),
        }
    }

    /// Runs `INC`, `DEC`, `ADD HL,rr` or `ADD SP,r8`, and gives the address
    /// of the next instruction.
    fn execute_counting(&mut self, instr: Instruction) -> (next_pc: u16)
        requires
            is_counting(instr),
        ensures
            (final(self)@, next_pc) == old(self)@.executed(instr),
    {
        proof {
            reveal(CpuState::add_hl_value);
        }
        let one: u16 = forward(self.pc, 1);
        let two: u16 = forward(self.pc, 2);
        match instr {
            Instruction::INC(target) => {
                self.inc(target);
                one
            },
            Instruction::DEC(target) => {
                self.dec(target);
                one
            },
            Instruction::ADDHL(target) => {
                let value: u16 = match target {
                    AddHLTarget::BC => self.registers.get_bc(),
                    AddHLTarget::DE => self.registers.get_de(),
                    AddHLTarget::HL => self.registers.get_hl(),
                    AddHLTarget::SP => self.sp,
                };
                let result: u16 = self.add_hl(value);
                self.registers.set_hl(result);
                one
            },
            Instruction::ADDSP => {
                let (result, flags) = add_sp(self.sp, self.read_next_byte());
                self.sp = result;
                self.registers.f = flags;
                two
            },
            _ => unreached(),
        }
    }

    /// The address after an arithmetic instruction on `target`.
    pub fn after_arith(&self, target: ArithTarget) -> (next_pc: u16)
        ensures
            next_pc == self@.arith_next(target),
    {
        match target {
            ArithTarget::D8 => forward(self.pc, 2),
            _ => forward(self.pc, 1),
        }
    }

    /// Runs one step: fetches the opcode at the program counter, and the
    /// byte after it where the opcode is the prefix `0xCB`; decodes it; runs
    /// the instruction and moves the program counter to the next one. A
    /// halted processor does nothing. A byte that is no instruction, and
    /// `STOP`, end the step with an error that names the place.
    pub fn fetch_execute(&mut self) -> (outcome: Result<(), CpuError>)
        ensures
            (final(self)@, outcome) == old(self)@.stepped(),
    {
        if self.is_halted {
            return Ok(());
        }
        let mut instr_byte: u8 = self.bus.read_byte(self.pc);
        let is_prefixed = instr_byte == 0xcb;
        if is_prefixed {
            instr_byte = self.read_next_byte();
        }
        match Instruction::disassemble(instr_byte, is_prefixed) {
            Some(instr) => match self.execute(instr) {
                Ok(next_pc) => {
                    self.pc = next_pc;
                    Ok(())
                },
                Err(e) => Err(e),
            },
            None => Err(
                CpuError::UnknownOpcode { pc: self.pc, byte: instr_byte, prefixed: is_prefixed },
            ),
        }
    }

    /// Pushes a word: the stack grows down, and the high byte is written
    /// first, so the word lies in memory low byte first.
    pub fn push(&mut self, value: u16)
        ensures
            final(self)@ == old(self)@.pushed(value),
    {
        proof {
            reveal(offset_by);
            reveal(CpuState::pushed);
        }
        self.sp = backward(self.sp, 1);
        self.bus.set_byte(self.sp, high(value));
        self.sp = backward(self.sp, 1);
        self.bus.set_byte(self.sp, low(value));
    }

    /// Pops a word.
    pub fn pop(&mut self) -> (value: u16)
        ensures
            (final(self)@, value) == old(self)@.popped(),
    {
        proof {
            reveal(offset_by);
            reveal(CpuState::popped);
        }
        let lower_byte: u8 = self.bus.read_byte(self.sp);
        self.sp = forward(self.sp, 1);
        let upper_byte: u8 = self.bus.read_byte(self.sp);
        self.sp = forward(self.sp, 1);
        join(upper_byte, lower_byte)
    }
}

} // verus!
