//! The arithmetic and logic unit: pure functions from operands and flags to a
//! result and the new flags.
use vstd::prelude::*;
use crate::flags::Flags;
use crate::instructions::BitPosition;
use crate::word::{offset_by, sign_extend, signed8};

verus! {

/// 1 for a set carry, 0 for a clear one.
pub open spec fn carry_in(carry: bool) -> int {
    if carry {
        1
    } else {
        0
    }
}

/// `a + value + carry` on 8 bits: the sum modulo 256, with Z for a zero
/// result, N clear, H for a carry out of bit 3 and C for a carry out of bit 7,
/// both of the whole sum.
#[verifier::opaque]
pub open spec fn sum8(a: u8, value: u8, carry: bool) -> (u8, Flags) {
    let c = carry_in(carry);
    let result = ((a + value + c) % 256) as u8;
    (
        result,
        Flags {
            zero: result == 0,
            subtract: false,
            half_carry: a % 16 + value % 16 + c > 15,
            carry: a + value + c > 255,
        },
    )
}

/// `a - value - carry` on 8 bits: the difference modulo 256, with Z for a
/// zero result, N set, H for a borrow from bit 4 and C for a borrow from
/// bit 8, both of the whole difference.
#[verifier::opaque]
pub open spec fn difference8(a: u8, value: u8, carry: bool) -> (u8, Flags) {
    let c = carry_in(carry);
    let result = ((a - value - c + 512) % 256) as u8;
    (
        result,
        Flags {
            zero: result == 0,
            subtract: true,
            half_carry: a % 16 < value % 16 + c,
            carry: a < value + c,
        },
    )
}

/// Bitwise AND: Z from the result, N clear, H set, C clear.
pub open spec fn and8(a: u8, value: u8) -> (u8, Flags) {
    let result = a & value;
    (result, Flags { zero: result == 0, subtract: false, half_carry: true, carry: false })
}

/// Bitwise OR: Z from the result, the other flags clear.
pub open spec fn or8(a: u8, value: u8) -> (u8, Flags) {
    let result = a | value;
    (result, Flags { zero: result == 0, subtract: false, half_carry: false, carry: false })
}

/// Bitwise XOR: Z from the result, the other flags clear.
pub open spec fn xor8(a: u8, value: u8) -> (u8, Flags) {
    let result = a ^ value;
    (result, Flags { zero: result == 0, subtract: false, half_carry: false, carry: false })
}

/// `value + 1` on 8 bits: Z from the result, N clear, H for a carry out of
/// bit 3, C kept.
#[verifier::opaque]
pub open spec fn inc8(value: u8, flags: Flags) -> (u8, Flags) {
    let result = ((value + 1) % 256) as u8;
    (
        result,
        Flags {
            zero: result == 0,
            subtract: false,
            half_carry: value % 16 == 15,
            carry: flags.carry,
        },
    )
}

/// `value - 1` on 8 bits: Z from the result, N set, H for a borrow from
/// bit 4, C kept.
#[verifier::opaque]
pub open spec fn dec8(value: u8, flags: Flags) -> (u8, Flags) {
    let result = ((value + 255) % 256) as u8;
    (
        result,
        Flags {
            zero: result == 0,
            subtract: true,
            half_carry: value % 16 == 0,
            carry: flags.carry,
        },
    )
}

/// `hl + value` on 16 bits: Z kept, N clear, H for a carry out of bit 11, C
/// for a carry out of bit 15.
#[verifier::opaque]
pub open spec fn sum16(hl: u16, value: u16, flags: Flags) -> (u16, Flags) {
    (
        ((hl + value) % 0x1_0000) as u16,
        Flags {
            zero: flags.zero,
            subtract: false,
            half_carry: hl % 0x1000 + value % 0x1000 > 0xFFF,
            carry: hl + value > 0xFFFF,
        },
    )
}

/// `sp` plus the signed displacement in `byte`, modulo 2^16: Z and N clear,
/// H and C for the carries out of bit 3 and bit 7 of the unsigned sum of the
/// low byte of `sp` and `byte`.
#[verifier::opaque]
pub open spec fn sum_sp(sp: u16, byte: u8) -> (u16, Flags) {
    (
        offset_by(sp, signed8(byte)),
        Flags {
            zero: false,
            subtract: false,
            half_carry: sp % 16 + byte % 16 > 15,
            carry: sp % 256 + byte > 255,
        },
    )
}

/// The decimal adjustment of `a` after an addition or subtraction of packed
/// decimal numbers. After an addition (N clear): plus `0x60` where C is set
/// or `a > 0x99`, which sets C, and plus `0x06` where H is set or the low
/// digit is above 9. After a subtraction (N set): minus `0x60` where C is
/// set, minus `0x06` where H is set. Z from the result, N kept, H clear.
#[verifier::opaque]
pub open spec fn decimal_adjusted(a: u8, flags: Flags) -> (u8, Flags) {
    let high = flags.carry || (!flags.subtract && a > 0x99);
    let low = flags.half_carry || (!flags.subtract && a % 16 > 9);
    let correction = (if high { 0x60int } else { 0 }) + (if low { 0x06int } else { 0 });
    let result = if flags.subtract {
        ((a - correction + 256) % 256) as u8
    } else {
        ((a + correction) % 256) as u8
    };
    (result, Flags { zero: result == 0, subtract: flags.subtract, half_carry: false, carry: high })
}

/// The rotates and shifts of the processor.
#[derive(Clone, Copy, Debug, PartialEq, Eq, Structural)]
pub enum Rotation {
    /// Rotate left; bit 7 goes to bit 0 and to C.
    LeftCircular,
    /// Rotate right; bit 0 goes to bit 7 and to C.
    RightCircular,
    /// Rotate left through C: the old C goes to bit 0, bit 7 to C.
    Left,
    /// Rotate right through C: the old C goes to bit 7, bit 0 to C.
    Right,
    /// Shift left; bit 0 becomes 0, bit 7 goes to C.
    ShiftLeft,
    /// Shift right keeping bit 7; bit 0 goes to C.
    ShiftRightArithmetic,
    /// Shift right; bit 7 becomes 0, bit 0 goes to C.
    ShiftRightLogical,
    /// Exchange the two nibbles; C becomes clear.
    Swap,
}

/// The result of a rotate or shift of `value`, and the bit that leaves it.
#[verifier::opaque]
pub open spec fn rotated(kind: Rotation, value: u8, carry: bool) -> (u8, bool) {
    let v = value as int;
    let c = carry_in(carry);
    match kind {
        Rotation::LeftCircular => (((v * 2) % 256 + v / 128) as u8, v >= 128),
        Rotation::RightCircular => ((v / 2 + (v % 2) * 128) as u8, v % 2 == 1),
        Rotation::Left => (((v * 2) % 256 + c) as u8, v >= 128),
        Rotation::Right => ((v / 2 + c * 128) as u8, v % 2 == 1),
        Rotation::ShiftLeft => (((v * 2) % 256) as u8, v >= 128),
        Rotation::ShiftRightArithmetic => ((v / 2 + (v / 128) * 128) as u8, v % 2 == 1),
        Rotation::ShiftRightLogical => ((v / 2) as u8, v % 2 == 1),
        Rotation::Swap => (((v % 16) * 16 + v / 16) as u8, false),
    }
}

/// The flags after a rotate or shift with result `result` and outgoing bit
/// `carry`: N and H clear, C the outgoing bit; Z from the result, but always
/// clear in the one-byte forms that work on the accumulator.
pub open spec fn rotation_flags(result: u8, carry: bool, on_accumulator: bool) -> Flags {
    Flags {
        zero: !on_accumulator && result == 0,
        subtract: false,
        half_carry: false,
        carry,
    }
}

/// The byte with only the bit at `pos` set.
pub open spec fn bit_mask(pos: BitPosition) -> u8 {
    1u8 << pos.index()
}

/// Whether the bit at `pos` is set in `value`.
pub open spec fn bit_is_set(value: u8, pos: BitPosition) -> bool {
    value & bit_mask(pos) != 0
}

/// The flags after `BIT`: Z set where the tested bit is clear, N clear, H
/// set, C kept.
pub open spec fn bit_test_flags(value: u8, pos: BitPosition, flags: Flags) -> Flags {
    Flags {
        zero: !bit_is_set(value, pos),
        subtract: false,
        half_carry: true,
        carry: flags.carry,
    }
}

proof fn lemma_masks8(a: u8)
    by (bit_vector)
    ensures
        a & 0xf == a % 16,
        (a & 0x80) >> 7 == a / 128,
        a & 0x1 == a % 2,
        a >> 1 == a / 2,
        a >> 4 == a / 16,
        a >> 7 == a / 128,
        a << 1 == (a % 128) * 2,
        a << 7 == (a % 2) * 128,
        a & 0x80 == (a / 128) * 128,
        (a & 0xf) << 4 == (a % 16) * 16,
{
}

proof fn lemma_masks16(w: u16)
    by (bit_vector)
    ensures
        w & 0xff == w % 256,
        w & 0xf == w % 16,
        w & 0xfff == w % 0x1000,
{
}

proof fn lemma_or_disjoint(high: u8, low: u8)
    by (bit_vector)
    requires
        (high % 2 == 0 && low <= 1) || (high < 128 && (low == 128 || low == 0)) || (high % 16 == 0
            && low < 16),
    ensures
        high | low == high + low,
{
}

/// Adds `value` and a carry to `a`.
pub fn add8(a: u8, value: u8, carry: bool) -> (out: (u8, Flags))
    ensures
        out == sum8(a, value, carry),
        out.1.zero == (out.0 == 0),
{
    proof {
        reveal(sum8);
    }
    let c: u8 = if carry { 1 } else { 0 };
    let wide: u16 = a as u16 + value as u16 + c as u16;
    proof {
        lemma_masks8(a);
        lemma_masks8(value);
        lemma_masks16(wide);
    }
    let result: u8 = (wide & 0xff) as u8;
    let half_carry = (a & 0xf) + (value & 0xf) + c > 0xf;
    (result, Flags { zero: result == 0, subtract: false, half_carry, carry: wide > 0xff })
}

/// Subtracts `value` and a borrow from `a`.
pub fn sub8(a: u8, value: u8, carry: bool) -> (out: (u8, Flags))
    ensures
        out == difference8(a, value, carry),
        out.1.zero == (out.0 == 0),
{
    proof {
        reveal(difference8);
    }
    let c: u8 = if carry { 1 } else { 0 };
    proof {
        lemma_masks8(a);
        lemma_masks8(value);
    }
    let wide: u16 = 0x200 + a as u16 - value as u16 - c as u16;
    proof {
        lemma_masks16(wide);
    }
    let result: u8 = (wide & 0xff) as u8;
    let half_carry = (a & 0xf) < (value & 0xf) + c;
    let borrow = wide < 0x200;
    (result, Flags { zero: result == 0, subtract: true, half_carry, carry: borrow })
}

/// Increments a byte.
pub fn increment8(value: u8, flags: Flags) -> (out: (u8, Flags))
    ensures
        out == inc8(value, flags),
        out.1.zero == (out.0 == 0),
{
    proof {
        reveal(inc8);
        lemma_masks8(value);
    }
    let result: u8 = value.wrapping_add(1);
    let half_carry = (value & 0xf) + 1 > 0xf;
    (result, Flags { zero: result == 0, subtract: false, half_carry, carry: flags.carry })
}

/// Decrements a byte.
pub fn decrement8(value: u8, flags: Flags) -> (out: (u8, Flags))
    ensures
        out == dec8(value, flags),
        out.1.zero == (out.0 == 0),
{
    proof {
        reveal(dec8);
        lemma_masks8(value);
    }
    let result: u8 = value.wrapping_sub(1);
    let half_carry = (value & 0xf) < 1;
    (result, Flags { zero: result == 0, subtract: true, half_carry, carry: flags.carry })
}

/// Adds `value` to `hl` on 16 bits.
pub fn add16(hl: u16, value: u16, flags: Flags) -> (out: (u16, Flags))
    ensures
        out == sum16(hl, value, flags),
{
    proof {
        reveal(sum16);
        lemma_masks16(hl);
        lemma_masks16(value);
    }
    let result: u16 = hl.wrapping_add(value);
    let half_carry = (hl & 0xfff) + (value & 0xfff) > 0xfff;
    let carry = hl as u32 + value as u32 > 0xffff;
    (result, Flags { zero: flags.zero, subtract: false, half_carry, carry })
}

/// Adds the signed displacement in `byte` to `sp`.
pub fn add_sp(sp: u16, byte: u8) -> (out: (u16, Flags))
    ensures
        out == sum_sp(sp, byte),
{
    proof {
        reveal(sum_sp);
    }
    let value: u16 = sign_extend(byte);
    proof {
        reveal(offset_by);
        lemma_masks16(sp);
        lemma_masks16(value);
    }
    let result: u16 = sp.wrapping_add(value);
    let half_carry = (sp & 0xf) + (value & 0xf) > 0xf;
    let carry = (sp & 0xff) + (value & 0xff) > 0xff;
    (result, Flags { zero: false, subtract: false, half_carry, carry })
}

/// Adjusts `a` to packed decimal after an addition or a subtraction.
pub fn decimal_adjust(a: u8, flags: Flags) -> (out: (u8, Flags))
    ensures
        out == decimal_adjusted(a, flags),
        out.1.zero == (out.0 == 0),
{
    proof {
        reveal(decimal_adjusted);
        lemma_masks8(a);
    }
    let high = flags.carry || (!flags.subtract && a > 0x99);
    let low = flags.half_carry || (!flags.subtract && (a & 0xf) > 0x9);
    let mut correction: u16 = 0;
    if high {
        correction = correction + 0x60;
    }
    if low {
        correction = correction + 0x06;
    }
    let wide: u16 = if flags.subtract {
        0x100 + a as u16 - correction
    } else {
        a as u16 + correction
    };
    proof {
        lemma_masks16(wide);
    }
    let result: u8 = (wide & 0xff) as u8;
    (result, Flags { zero: result == 0, subtract: flags.subtract, half_carry: false, carry: high })
}

/// Rotates or shifts `value`; returns the result and the outgoing bit.
pub fn rotate(kind: Rotation, value: u8, carry: bool) -> (out: (u8, bool))
    ensures
        out == rotated(kind, value, carry),
{
    proof {
        reveal(rotated);
        lemma_masks8(value);
    }
    let low_in: u8 = if carry { 0x01 } else { 0x00 };
    let high_in: u8 = if carry { 0x80 } else { 0x00 };
    let msb: u8 = (value & 0x80) >> 7;
    let lsb: u8 = value & 0x1;
    match kind {
        Rotation::LeftCircular => {
            proof {
                lemma_or_disjoint(value << 1, msb);
            }
            ((value << 1) | msb, msb != 0)
        },
        Rotation::RightCircular => {
            proof {
                lemma_or_disjoint(value >> 1, value << 7);
            }
            ((value >> 1) | (value << 7), lsb != 0)
        },
        Rotation::Left => {
            proof {
                lemma_or_disjoint(value << 1, low_in);
            }
            ((value << 1) | low_in, msb != 0)
        },
        Rotation::Right => {
            proof {
                lemma_or_disjoint(value >> 1, high_in);
            }
            ((value >> 1) | high_in, lsb != 0)
        },
        Rotation::ShiftLeft => (value << 1, msb != 0),
        Rotation::ShiftRightArithmetic => {
            proof {
                lemma_or_disjoint(value >> 1, value & 0x80);
            }
            ((value >> 1) | (value & 0x80), lsb != 0)
        },
        Rotation::ShiftRightLogical => (value >> 1, lsb != 0),
        Rotation::Swap => {
            proof {
                lemma_or_disjoint((value & 0xf) << 4, value >> 4);
            }
            (((value & 0xf) << 4) | (value >> 4), false)
        },
    }
}

/// Whether the bit at `pos` is set in `value`.
pub fn test_bit(value: u8, pos: BitPosition) -> (set: bool)
    ensures
        set == bit_is_set(value, pos),
{
    let shift_value: u8 = pos.shift();
    (value & (0x1u8 << shift_value)) != 0
}

/// `value` with the bit at `pos` set.
pub fn set_bit(value: u8, pos: BitPosition) -> (result: u8)
    ensures
        result == value | bit_mask(pos),
{
    let shift_value: u8 = pos.shift();
    value | (0x1u8 << shift_value)
}

/// `value` with the bit at `pos` cleared.
pub fn reset_bit(value: u8, pos: BitPosition) -> (result: u8)
    ensures
        result == value & !bit_mask(pos),
{
    let shift_value: u8 = pos.shift();
    value & !(0x1u8 << shift_value)
}

/// The zero flag of every operation that computes it says whether the result
/// is zero.
pub proof fn lemma_zero_flag(a: u8, value: u8, flags: Flags)
    ensures
        sum8(a, value, flags.carry).1.zero <==> sum8(a, value, flags.carry).0 == 0,
        sum8(a, value, false).1.zero <==> sum8(a, value, false).0 == 0,
        difference8(a, value, flags.carry).1.zero <==> difference8(a, value, flags.carry).0 == 0,
        difference8(a, value, false).1.zero <==> difference8(a, value, false).0 == 0,
        difference8(a, value, false).1.zero <==> a == value,
        and8(a, value).1.zero <==> and8(a, value).0 == 0,
        or8(a, value).1.zero <==> or8(a, value).0 == 0,
        xor8(a, value).1.zero <==> xor8(a, value).0 == 0,
        inc8(value, flags).1.zero <==> inc8(value, flags).0 == 0,
        dec8(value, flags).1.zero <==> dec8(value, flags).0 == 0,
        decimal_adjusted(a, flags).1.zero <==> decimal_adjusted(a, flags).0 == 0,
        forall|kind: Rotation|
            rotation_flags(
                #[trigger] rotated(kind, value, flags.carry).0,
                rotated(kind, value, flags.carry).1,
                false,
            ).zero <==> rotated(kind, value, flags.carry).0 == 0,
{
    reveal(sum8);
    reveal(difference8);
    reveal(inc8);
    reveal(dec8);
    reveal(decimal_adjusted);
}

} // verus!
