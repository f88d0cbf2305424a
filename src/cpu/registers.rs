use vstd::prelude::*;
use crate::cpu::flags_register::{FlagsRegister, flags_to_byte, byte_to_flags};
use crate::cpu::targets::ArithmeticTarget;

verus! {

/// A 16-bit view over two 8-bit storages.
#[derive(Clone, Copy, Debug, PartialEq, Eq, Structural)]
pub enum RegisterPair {
    AF,
    BC,
    DE,
    HL,
}

/// Seven 8-bit registers and the flags.
#[derive(Clone, Copy, Debug, PartialEq, Eq, Structural)]
pub struct Registers {
    pub a: u8,
    pub b: u8,
    pub c: u8,
    pub d: u8,
    pub e: u8,
    pub h: u8,
    pub l: u8,
    pub f: FlagsRegister,
}

/// The 16-bit value whose high byte is `high` and low byte is `low`.
pub open spec fn word(high: u8, low: u8) -> u16 {
    (high * 256 + low) as u16
}

/// The high byte of a 16-bit value.
pub open spec fn high_byte(v: u16) -> u8 {
    (v / 256) as u8
}

/// The low byte of a 16-bit value.
pub open spec fn low_byte(v: u16) -> u8 {
    (v % 256) as u8
}

impl Registers {
    /// The value of a pair: high byte first; the low byte of AF is the flags' byte.
    pub open spec fn pair(self, p: RegisterPair) -> u16 {
        match p {
            RegisterPair::AF => word(self.a, flags_to_byte(self.f)),
            RegisterPair::BC => word(self.b, self.c),
            RegisterPair::DE => word(self.d, self.e),
            RegisterPair::HL => word(self.h, self.l),
        }
    }

    /// The registers after writing `v` to a pair: its high byte to the first register,
    /// its low byte to the second, or for AF decoded into the flags.
    pub open spec fn with_pair(self, p: RegisterPair, v: u16) -> Registers {
        match p {
            RegisterPair::AF => Registers { a: high_byte(v), f: byte_to_flags(low_byte(v)), ..self },
            RegisterPair::BC => Registers { b: high_byte(v), c: low_byte(v), ..self },
            RegisterPair::DE => Registers { d: high_byte(v), e: low_byte(v), ..self },
            RegisterPair::HL => Registers { h: high_byte(v), l: low_byte(v), ..self },
        }
    }

    /// The value of an 8-bit register.
    pub open spec fn reg(self, t: ArithmeticTarget) -> u8 {
        match t {
            ArithmeticTarget::A => self.a,
            ArithmeticTarget::B => self.b,
            ArithmeticTarget::C => self.c,
            ArithmeticTarget::D => self.d,
            ArithmeticTarget::E => self.e,
            ArithmeticTarget::H => self.h,
            ArithmeticTarget::L => self.l,
        }
    }

    /// The registers after writing `v` to one 8-bit register.
    pub open spec fn with_reg(self, t: ArithmeticTarget, v: u8) -> Registers {
        match t {
            ArithmeticTarget::A => Registers { a: v, ..self },
            ArithmeticTarget::B => Registers { b: v, ..self },
            ArithmeticTarget::C => Registers { c: v, ..self },
            ArithmeticTarget::D => Registers { d: v, ..self },
            ArithmeticTarget::E => Registers { e: v, ..self },
            ArithmeticTarget::H => Registers { h: v, ..self },
            ArithmeticTarget::L => Registers { l: v, ..self },
        }
    }

    /// Reads an 8-bit register.
    pub fn get(&self, t: ArithmeticTarget) -> (r: u8)
        ensures
            r == self.reg(t),
    {
        match t {
            ArithmeticTarget::A => self.a,
            ArithmeticTarget::B => self.b,
            ArithmeticTarget::C => self.c,
            ArithmeticTarget::D => self.d,
            ArithmeticTarget::E => self.e,
            ArithmeticTarget::H => self.h,
            ArithmeticTarget::L => self.l,
        }
    }

    /// Writes an 8-bit register.
    pub fn set(&mut self, t: ArithmeticTarget, v: u8)
        ensures
            *final(self) == old(self).with_reg(t, v),
    {
        match t {
            ArithmeticTarget::A => self.a = v,
            ArithmeticTarget::B => self.b = v,
            ArithmeticTarget::C => self.c = v,
            ArithmeticTarget::D => self.d = v,
            ArithmeticTarget::E => self.e = v,
            ArithmeticTarget::H => self.h = v,
            ArithmeticTarget::L => self.l = v,
        }
    }

    /// Every register zero and every flag clear.
    pub open spec fn new_spec() -> Registers {
        Registers {
            a: 0,
            b: 0,
            c: 0,
            d: 0,
            e: 0,
            h: 0,
            l: 0,
            f: FlagsRegister { zero: false, subtract: false, half_carry: false, carry: false },
        }
    }

    /// Every register zero and every flag clear.
    pub fn new() -> (r: Self)
        ensures
            r == Registers::new_spec(),
    {
        Registers { a: 0, b: 0, c: 0, d: 0, e: 0, h: 0, l: 0, f: FlagsRegister::new() }
    }

    /// Reads a register pair.
    pub fn get_pair(&self, p: RegisterPair) -> (r: u16)
        ensures
            r == self.pair(p),
    {
        let (high, low) = match p {
            RegisterPair::AF => (self.a, u8::from(self.f)),
            RegisterPair::BC => (self.b, self.c),
            RegisterPair::DE => (self.d, self.e),
            RegisterPair::HL => (self.h, self.l),
        };
        let r = (high as u16) << 8 | (low as u16);
        assert(r == high * 256 + low) by (bit_vector)
            requires
                r == (high as u16) << 8 | (low as u16),
        ;
        r
    }

    /// Writes a register pair.
    pub fn set_pair(&mut self, p: RegisterPair, v: u16)
        ensures
            *final(self) == old(self).with_pair(p, v),
    {
        let high = (v >> 8) as u8;
        let low = (v & 0xFF) as u8;
        assert(high == v / 256 && low == v % 256) by (bit_vector)
            requires
                high == (v >> 8) as u8,
                low == (v & 0xFF) as u8,
        ;
        match p {
            RegisterPair::AF => {
                self.a = high;
                self.f = FlagsRegister::from(low);
            },
            RegisterPair::BC => {
                self.b = high;
                self.c = low;
            },
            RegisterPair::DE => {
                self.d = high;
                self.e = low;
            },
            RegisterPair::HL => {
                self.h = high;
                self.l = low;
            },
        }
    }
}

/// Decomposing the word of bytes (`high`, `low`) and composing it again gives back
/// `high` and `low`: writing that word to a pair and reading the pair returns it.
/// The low byte of AF is held as four flags, so there its low nibble must be clear.
/// Reading a pair and writing the value back leaves every register as it was.
pub proof fn lemma_pair_round_trip(r: Registers, p: RegisterPair, high: u8, low: u8)
    requires
        p == RegisterPair::AF ==> low % 16 == 0,
    ensures
        high_byte(word(high, low)) == high,
        low_byte(word(high, low)) == low,
        r.with_pair(p, word(high, low)).pair(p) == word(high, low),
        r.with_pair(p, r.pair(p)) == r,
{
    crate::cpu::flags_register::lemma_byte_round_trip(low);
    crate::cpu::flags_register::lemma_flags_round_trip(r.f);
}

} // verus!
