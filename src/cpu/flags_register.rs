use vstd::prelude::*;

verus! {

pub const ZERO_FLAG_BYTE_POSITION: u8 = 7;

pub const SUBTRACT_FLAG_BYTE_POSITION: u8 = 6;

pub const HALF_CARRY_FLAG_BYTE_POSITION: u8 = 5;

pub const CARRY_FLAG_BYTE_POSITION: u8 = 4;

/// The four status bits of the CPU.
#[derive(Clone, Copy, Debug, PartialEq, Eq, Structural)]
pub struct FlagsRegister {
    pub zero: bool,
    pub subtract: bool,
    pub half_carry: bool,
    pub carry: bool,
}

pub open spec fn bit_value(b: bool) -> int {
    if b {
        1
    } else {
        0
    }
}

/// The canonical byte of a flag set: zero at bit 7, subtract at bit 6,
/// half-carry at bit 5, carry at bit 4, every other bit clear.
pub open spec fn flags_to_byte(f: FlagsRegister) -> u8 {
    (128 * bit_value(f.zero) + 64 * bit_value(f.subtract) + 32 * bit_value(f.half_carry) + 16
        * bit_value(f.carry)) as u8
}

/// The flag set read from bits 7, 6, 5 and 4 of a byte; the low nibble is ignored.
pub open spec fn byte_to_flags(byte: u8) -> FlagsRegister {
    FlagsRegister {
        zero: (byte / 128) % 2 == 1,
        subtract: (byte / 64) % 2 == 1,
        half_carry: (byte / 32) % 2 == 1,
        carry: (byte / 16) % 2 == 1,
    }
}

impl FlagsRegister {
    /// All four flags clear.
    pub fn new() -> (r: Self)
        ensures
            !r.zero && !r.subtract && !r.half_carry && !r.carry,
    {
        FlagsRegister { zero: false, subtract: false, half_carry: false, carry: false }
    }
}

fn flag_bit(b: bool) -> (r: u8)
    ensures
        r as int == bit_value(b),
{
    if b {
        1
    } else {
        0
    }
}

impl From<FlagsRegister> for u8 {
    fn from(flags: FlagsRegister) -> (r: u8) {
        let z = flag_bit(flags.zero);
        let s = flag_bit(flags.subtract);
        let h = flag_bit(flags.half_carry);
        let c = flag_bit(flags.carry);
        let r = z << ZERO_FLAG_BYTE_POSITION | s << SUBTRACT_FLAG_BYTE_POSITION | h
            << HALF_CARRY_FLAG_BYTE_POSITION | c << CARRY_FLAG_BYTE_POSITION;
        assert(r == (128 * z + 64 * s + 32 * h + 16 * c) as u8) by (bit_vector)
            requires
                z <= 1 && s <= 1 && h <= 1 && c <= 1,
                r == z << 7u8 | s << 6u8 | h << 5u8 | c << 4u8,
        ;
        r
    }
}

impl vstd::std_specs::convert::FromSpecImpl<FlagsRegister> for u8 {
    open spec fn obeys_from_spec() -> bool {
        true
    }

    open spec fn from_spec(v: FlagsRegister) -> u8 {
        flags_to_byte(v)
    }
}

fn test_bit(byte: u8, pos: u8) -> (r: bool)
    requires
        4 <= pos <= 7,
    ensures
        pos == 7 ==> r == ((byte / 128) % 2 == 1),
        pos == 6 ==> r == ((byte / 64) % 2 == 1),
        pos == 5 ==> r == ((byte / 32) % 2 == 1),
        pos == 4 ==> r == ((byte / 16) % 2 == 1),
{
    let r = ((byte >> pos) & 0b1) != 0;
    assert(pos == 7 ==> (((byte >> pos) & 1) != 0) == ((byte / 128) % 2 == 1)) by (bit_vector);
    assert(pos == 6 ==> (((byte >> pos) & 1) != 0) == ((byte / 64) % 2 == 1)) by (bit_vector);
    assert(pos == 5 ==> (((byte >> pos) & 1) != 0) == ((byte / 32) % 2 == 1)) by (bit_vector);
    assert(pos == 4 ==> (((byte >> pos) & 1) != 0) == ((byte / 16) % 2 == 1)) by (bit_vector);
    r
}

impl From<u8> for FlagsRegister {
    fn from(byte: u8) -> (r: FlagsRegister) {
        FlagsRegister {
            zero: test_bit(byte, ZERO_FLAG_BYTE_POSITION),
            subtract: test_bit(byte, SUBTRACT_FLAG_BYTE_POSITION),
            half_carry: test_bit(byte, HALF_CARRY_FLAG_BYTE_POSITION),
            carry: test_bit(byte, CARRY_FLAG_BYTE_POSITION),
        }
    }
}

impl vstd::std_specs::convert::FromSpecImpl<u8> for FlagsRegister {
    open spec fn obeys_from_spec() -> bool {
        true
    }

    open spec fn from_spec(v: u8) -> FlagsRegister {
        byte_to_flags(v)
    }
}

/// Decoding the canonical byte of a flag set gives back that flag set.
pub proof fn lemma_flags_round_trip(f: FlagsRegister)
    ensures
        byte_to_flags(flags_to_byte(f)) == f,
{
}

/// Encoding a decoded byte keeps the four flag bits and clears the low nibble.
pub proof fn lemma_byte_round_trip(byte: u8)
    ensures
        flags_to_byte(byte_to_flags(byte)) as int == byte - byte % 16,
{
}

} // verus!
