use gameboy_core::flags::Flags;
use gameboy_core::registers::Registers;
use gameboy_core::word::{high, join, low, sign_extend};

#[test]
fn new_flags_are_clear() {
    let f = Flags::new();
    assert_eq!(f, Flags { zero: false, subtract: false, half_carry: false, carry: false });
    assert_eq!(f.to_byte(), 0x00);
}

#[test]
fn each_flag_has_its_bit() {
    let none = Flags::new();
    assert_eq!(Flags { zero: true, ..none }.to_byte(), 0x80);
    assert_eq!(Flags { subtract: true, ..none }.to_byte(), 0x40);
    assert_eq!(Flags { half_carry: true, ..none }.to_byte(), 0x20);
    assert_eq!(Flags { carry: true, ..none }.to_byte(), 0x10);
    assert_eq!(
        Flags { zero: true, subtract: true, half_carry: true, carry: true }.to_byte(),
        0xF0
    );
}

#[test]
fn unpack_of_pack_is_identity() {
    for bits in 0..16u8 {
        let f = Flags {
            zero: bits & 8 != 0,
            subtract: bits & 4 != 0,
            half_carry: bits & 2 != 0,
            carry: bits & 1 != 0,
        };
        let byte = u8::from(f);
        assert_eq!(byte, bits << 4);
        assert_eq!(byte & 0x0F, 0);
        assert_eq!(Flags::from(byte), f);
        assert_eq!(Flags::from_byte(f.to_byte()), f);
    }
}

#[test]
fn pack_of_unpack_keeps_the_upper_nibble() {
    for byte in 0..=255u8 {
        assert_eq!(Flags::from_byte(byte).to_byte(), byte & 0xF0);
        assert_eq!(u8::from(Flags::from(byte)), byte & 0xF0);
    }
}

#[test]
fn set_updates_or_leaves_each_flag() {
    let mut f = Flags { zero: true, subtract: false, half_carry: true, carry: false };
    f.set(None, None, None, None);
    assert_eq!(f, Flags { zero: true, subtract: false, half_carry: true, carry: false });
    f.set(Some(false), None, None, Some(true));
    assert_eq!(f, Flags { zero: false, subtract: false, half_carry: true, carry: true });
    f.set(None, Some(true), Some(false), None);
    assert_eq!(f, Flags { zero: false, subtract: true, half_carry: false, carry: true });
    f.set(Some(true), Some(false), Some(true), Some(false));
    assert_eq!(f, Flags { zero: true, subtract: false, half_carry: true, carry: false });
}

#[test]
fn new_registers_are_zero() {
    let r = Registers::new();
    assert_eq!((r.a, r.b, r.c, r.d, r.e, r.h, r.l), (0, 0, 0, 0, 0, 0, 0));
    assert_eq!(r.f, Flags::new());
    assert_eq!((r.get_af(), r.get_bc(), r.get_de(), r.get_hl()), (0, 0, 0, 0));
}

#[test]
fn pairs_split_high_byte_first() {
    let mut r = Registers::new();
    r.set_bc(0x1234);
    assert_eq!((r.b, r.c), (0x12, 0x34));
    r.set_de(0x5678);
    assert_eq!((r.d, r.e), (0x56, 0x78));
    r.set_hl(0x9ABC);
    assert_eq!((r.h, r.l), (0x9A, 0xBC));
    r.set_af(0xDEF0);
    assert_eq!(r.a, 0xDE);
    assert_eq!(r.f, Flags { zero: true, subtract: true, half_carry: true, carry: true });
    assert_eq!(r.get_bc(), 0x1234);
    assert_eq!(r.get_de(), 0x5678);
    assert_eq!(r.get_hl(), 0x9ABC);
    assert_eq!(r.get_af(), 0xDEF0);
    // A write to one pair leaves the others alone.
    assert_eq!((r.b, r.c, r.d, r.e, r.h, r.l), (0x12, 0x34, 0x56, 0x78, 0x9A, 0xBC));
}

#[test]
fn pair_round_trip() {
    let mut r = Registers::new();
    for v in 0..=0xFFFFu16 {
        r.set_bc(v);
        assert_eq!(r.get_bc(), v);
        r.set_de(v);
        assert_eq!(r.get_de(), v);
        r.set_hl(v);
        assert_eq!(r.get_hl(), v);
        r.set_af(v);
        assert_eq!(r.get_af(), v & 0xFFF0);
    }
}

#[test]
fn af_drops_the_low_nibble() {
    let mut r = Registers::new();
    r.set_af(0x12FF);
    assert_eq!(r.a, 0x12);
    assert_eq!(r.get_af(), 0x12F0);
    r.set_af(0x000F);
    assert_eq!(r.get_af(), 0x0000);
    assert_eq!(r.f, Flags::new());
}

#[test]
fn words_split_and_join() {
    assert_eq!(join(0x12, 0x34), 0x1234);
    assert_eq!(high(0x1234), 0x12);
    assert_eq!(low(0x1234), 0x34);
    assert_eq!(join(0xFF, 0x00), 0xFF00);
    assert_eq!(join(0x00, 0xFF), 0x00FF);
}

#[test]
fn sign_extension() {
    assert_eq!(sign_extend(0x00), 0x0000);
    assert_eq!(sign_extend(0x7F), 0x007F);
    assert_eq!(sign_extend(0x80), 0xFF80);
    assert_eq!(sign_extend(0xFE), 0xFFFE);
    assert_eq!(sign_extend(0xFF), 0xFFFF);
    for byte in 0..=255u8 {
        assert_eq!(sign_extend(byte), byte as i8 as i16 as u16);
    }
}
