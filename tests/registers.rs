use gameboy::cpu::flags_register::FlagsRegister;
use gameboy::cpu::registers::{RegisterPair, Registers};

fn flags(zero: bool, subtract: bool, half_carry: bool, carry: bool) -> FlagsRegister {
    FlagsRegister { zero, subtract, half_carry, carry }
}

#[test]
fn flags_encode_then_decode_every_combination() {
    for bits in 0u8..16 {
        let f = flags(bits & 8 != 0, bits & 4 != 0, bits & 2 != 0, bits & 1 != 0);
        let byte = u8::from(f);
        assert_eq!(byte & 0x0F, 0);
        assert_eq!(FlagsRegister::from(byte), f);
    }
}

#[test]
fn flags_byte_layout() {
    assert_eq!(u8::from(flags(true, false, false, false)), 0x80);
    assert_eq!(u8::from(flags(false, true, false, false)), 0x40);
    assert_eq!(u8::from(flags(false, false, true, false)), 0x20);
    assert_eq!(u8::from(flags(false, false, false, true)), 0x10);
    assert_eq!(u8::from(flags(true, false, false, true)), 0x90);
    assert_eq!(u8::from(FlagsRegister::new()), 0x00);
}

#[test]
fn flags_decode_ignores_low_nibble() {
    assert_eq!(FlagsRegister::from(0x0F), FlagsRegister::new());
    assert_eq!(FlagsRegister::from(0xAF), flags(true, false, true, false));
    assert_eq!(FlagsRegister::from(0x5F), flags(false, true, false, true));
}

#[test]
fn pair_set_then_get_every_byte_pair() {
    let mut r = Registers::new();
    for high in 0u16..=255 {
        for low in 0u16..=255 {
            let v = (high << 8) | low;
            for p in [RegisterPair::BC, RegisterPair::DE, RegisterPair::HL] {
                r.set_pair(p, v);
                assert_eq!(r.get_pair(p), v);
            }
            r.set_pair(RegisterPair::AF, v);
            assert_eq!(r.get_pair(RegisterPair::AF), v & 0xFFF0);
            assert_eq!(r.a as u16, high);
        }
    }
}

#[test]
fn pair_halves_land_in_named_registers() {
    let mut r = Registers::new();
    r.set_pair(RegisterPair::BC, 0x1234);
    r.set_pair(RegisterPair::DE, 0x5678);
    r.set_pair(RegisterPair::HL, 0x9ABC);
    r.set_pair(RegisterPair::AF, 0xDEB0);
    assert_eq!((r.b, r.c, r.d, r.e, r.h, r.l, r.a), (0x12, 0x34, 0x56, 0x78, 0x9A, 0xBC, 0xDE));
    assert_eq!(r.f, flags(true, false, true, true));
}

#[test]
fn pair_get_then_set_keeps_registers() {
    let mut r = Registers::new();
    r.a = 0x01;
    r.f = flags(true, true, false, true);
    r.b = 0xFE;
    r.l = 0x77;
    let before = r;
    for p in [RegisterPair::AF, RegisterPair::BC, RegisterPair::DE, RegisterPair::HL] {
        let v = r.get_pair(p);
        r.set_pair(p, v);
        assert_eq!(r, before);
    }
}
