use vstd::prelude::*;
pub use crate::cpu::targets::{
    ADDHLTarget, ArithmeticTarget, IncDecTarget, JumpTest, LoadByteSource, LoadByteTarget,
    LoadType, PrefixTarget, StackTarget,
};

verus! {

/// The opcode byte that sends the following byte to the prefixed table.
pub const PREFIX_BYTE: u8 = 0xCB;

/// One decoded instruction with its operand.
#[derive(Clone, Copy, Debug, PartialEq, Eq, Structural)]
pub enum Instruction {
    INC(IncDecTarget),
    DEC(IncDecTarget),
    ADD(ArithmeticTarget),
    ADDHL(ADDHLTarget),
    ADC(ArithmeticTarget),
    SUB(ArithmeticTarget),
    SBC(ArithmeticTarget),
    AND(ArithmeticTarget),
    OR(ArithmeticTarget),
    XOR(ArithmeticTarget),
    CP(ArithmeticTarget),
    /// Complement the carry flag.
    CCF,
    /// Set the carry flag.
    SCF,
    /// Rotate A right through the carry.
    RRA,
    /// Rotate A left through the carry.
    RLA,
    /// Rotate A right.
    RRCA,
    /// Rotate A left.
    RRLA,
    /// Complement A.
    CPL,
    /// Test bit `n` of the operand.
    BIT(u8, PrefixTarget),
    /// Clear bit `n` of the operand.
    RESET(u8, PrefixTarget),
    /// Set bit `n` of the operand.
    SET(u8, PrefixTarget),
    SRL(PrefixTarget),
    SLL(PrefixTarget),
    SRA(PrefixTarget),
    SLA(PrefixTarget),
    RR(PrefixTarget),
    RL(PrefixTarget),
    RRC(PrefixTarget),
    RLC(PrefixTarget),
    SWAP(PrefixTarget),
    JP(JumpTest),
    LD(LoadType),
    PUSH(StackTarget),
    POP(StackTarget),
    CALL(JumpTest),
    RET(JumpTest),
    NOP,
    HALT,
}

/// The register that column `col` (0 to 7) of an opcode block names; column 6 names
/// memory at HL, which an arithmetic operand cannot be.
pub open spec fn arith_target_of(col: int) -> Option<ArithmeticTarget> {
    if col == 0 {
        Some(ArithmeticTarget::B)
    } else if col == 1 {
        Some(ArithmeticTarget::C)
    } else if col == 2 {
        Some(ArithmeticTarget::D)
    } else if col == 3 {
        Some(ArithmeticTarget::E)
    } else if col == 4 {
        Some(ArithmeticTarget::H)
    } else if col == 5 {
        Some(ArithmeticTarget::L)
    } else if col == 7 {
        Some(ArithmeticTarget::A)
    } else {
        None
    }
}

/// The load destination that row `row` (0 to 7) of the load block names.
pub open spec fn load_target_of(row: int) -> LoadByteTarget {
    if row == 0 {
        LoadByteTarget::B
    } else if row == 1 {
        LoadByteTarget::C
    } else if row == 2 {
        LoadByteTarget::D
    } else if row == 3 {
        LoadByteTarget::E
    } else if row == 4 {
        LoadByteTarget::H
    } else if row == 5 {
        LoadByteTarget::L
    } else if row == 6 {
        LoadByteTarget::HLI
    } else {
        LoadByteTarget::A
    }
}

/// The load source that column `col` (0 to 7) of the load block names.
pub open spec fn load_source_of(col: int) -> LoadByteSource {
    if col == 0 {
        LoadByteSource::B
    } else if col == 1 {
        LoadByteSource::C
    } else if col == 2 {
        LoadByteSource::D
    } else if col == 3 {
        LoadByteSource::E
    } else if col == 4 {
        LoadByteSource::H
    } else if col == 5 {
        LoadByteSource::L
    } else if col == 6 {
        LoadByteSource::HLI
    } else {
        LoadByteSource::A
    }
}

/// The operand that column `col` (0 to 7) of the prefixed table names.
pub open spec fn prefix_target_of(col: int) -> PrefixTarget {
    if col == 0 {
        PrefixTarget::B
    } else if col == 1 {
        PrefixTarget::C
    } else if col == 2 {
        PrefixTarget::D
    } else if col == 3 {
        PrefixTarget::E
    } else if col == 4 {
        PrefixTarget::H
    } else if col == 5 {
        PrefixTarget::L
    } else if col == 6 {
        PrefixTarget::HLI
    } else {
        PrefixTarget::A
    }
}

/// The arithmetic or logic instruction of row `row` (0 to 7) of the block 0x80..=0xBF.
pub open spec fn alu_of(row: int, t: ArithmeticTarget) -> Instruction {
    if row == 0 {
        Instruction::ADD(t)
    } else if row == 1 {
        Instruction::ADC(t)
    } else if row == 2 {
        Instruction::SUB(t)
    } else if row == 3 {
        Instruction::SBC(t)
    } else if row == 4 {
        Instruction::AND(t)
    } else if row == 5 {
        Instruction::XOR(t)
    } else if row == 6 {
        Instruction::OR(t)
    } else {
        Instruction::CP(t)
    }
}

/// The primary opcode table.
#[verifier::opaque]
pub open spec fn decode(byte: u8) -> Option<Instruction> {
    if 0x40 <= byte <= 0x7F {
        if byte == 0x76 {
            Some(Instruction::HALT)
        } else {
            Some(
                Instruction::LD(
                    LoadType::Byte(load_target_of((byte - 0x40) / 8), load_source_of((byte % 8) as int)),
                ),
            )
        }
    } else if 0x80 <= byte <= 0xBF {
        match arith_target_of((byte % 8) as int) {
            Some(t) => Some(alu_of((byte - 0x80) / 8, t)),
            None => None,
        }
    } else {
        match byte {
            0x00 => Some(Instruction::NOP),
            0x3c => Some(Instruction::INC(IncDecTarget::A)),
            0x04 => Some(Instruction::INC(IncDecTarget::B)),
            0x0c => Some(Instruction::INC(IncDecTarget::C)),
            0x14 => Some(Instruction::INC(IncDecTarget::D)),
            0x1c => Some(Instruction::INC(IncDecTarget::E)),
            0x24 => Some(Instruction::INC(IncDecTarget::H)),
            0x2c => Some(Instruction::INC(IncDecTarget::L)),
            0x03 => Some(Instruction::INC(IncDecTarget::BC)),
            0x13 => Some(Instruction::INC(IncDecTarget::DE)),
            0x23 => Some(Instruction::INC(IncDecTarget::HL)),
            0x33 => Some(Instruction::INC(IncDecTarget::SP)),
            0x3d => Some(Instruction::DEC(IncDecTarget::A)),
            0x05 => Some(Instruction::DEC(IncDecTarget::B)),
            0x0d => Some(Instruction::DEC(IncDecTarget::C)),
            0x15 => Some(Instruction::DEC(IncDecTarget::D)),
            0x1d => Some(Instruction::DEC(IncDecTarget::E)),
            0x25 => Some(Instruction::DEC(IncDecTarget::H)),
            0x2d => Some(Instruction::DEC(IncDecTarget::L)),
            0x0b => Some(Instruction::DEC(IncDecTarget::BC)),
            0x1b => Some(Instruction::DEC(IncDecTarget::DE)),
            0x2b => Some(Instruction::DEC(IncDecTarget::HL)),
            0x3b => Some(Instruction::DEC(IncDecTarget::SP)),
            0x09 => Some(Instruction::ADDHL(ADDHLTarget::BC)),
            0x19 => Some(Instruction::ADDHL(ADDHLTarget::DE)),
            0x29 => Some(Instruction::ADDHL(ADDHLTarget::HL)),
            0x39 => Some(Instruction::ADDHL(ADDHLTarget::SP)),
            0x06 => Some(Instruction::LD(LoadType::Byte(LoadByteTarget::B, LoadByteSource::D8))),
            0x0e => Some(Instruction::LD(LoadType::Byte(LoadByteTarget::C, LoadByteSource::D8))),
            0x16 => Some(Instruction::LD(LoadType::Byte(LoadByteTarget::D, LoadByteSource::D8))),
            0x1e => Some(Instruction::LD(LoadType::Byte(LoadByteTarget::E, LoadByteSource::D8))),
            0x26 => Some(Instruction::LD(LoadType::Byte(LoadByteTarget::H, LoadByteSource::D8))),
            0x2e => Some(Instruction::LD(LoadType::Byte(LoadByteTarget::L, LoadByteSource::D8))),
            0x36 => Some(Instruction::LD(LoadType::Byte(LoadByteTarget::HLI, LoadByteSource::D8))),
            0x3e => Some(Instruction::LD(LoadType::Byte(LoadByteTarget::A, LoadByteSource::D8))),
            0x07 => Some(Instruction::RRLA),
            0x0f => Some(Instruction::RRCA),
            0x17 => Some(Instruction::RLA),
            0x1f => Some(Instruction::RRA),
            0x2f => Some(Instruction::CPL),
            0x37 => Some(Instruction::SCF),
            0x3f => Some(Instruction::CCF),
            0xc3 => Some(Instruction::JP(JumpTest::Always)),
            0xc2 => Some(Instruction::JP(JumpTest::NotZero)),
            0xca => Some(Instruction::JP(JumpTest::Zero)),
            0xd2 => Some(Instruction::JP(JumpTest::NotCarry)),
            0xda => Some(Instruction::JP(JumpTest::Carry)),
            0xcd => Some(Instruction::CALL(JumpTest::Always)),
            0xc4 => Some(Instruction::CALL(JumpTest::NotZero)),
            0xcc => Some(Instruction::CALL(JumpTest::Zero)),
            0xd4 => Some(Instruction::CALL(JumpTest::NotCarry)),
            0xdc => Some(Instruction::CALL(JumpTest::Carry)),
            0xc9 => Some(Instruction::RET(JumpTest::Always)),
            0xc0 => Some(Instruction::RET(JumpTest::NotZero)),
            0xc8 => Some(Instruction::RET(JumpTest::Zero)),
            0xd0 => Some(Instruction::RET(JumpTest::NotCarry)),
            0xd8 => Some(Instruction::RET(JumpTest::Carry)),
            0xc5 => Some(Instruction::PUSH(StackTarget::BC)),
            0xd5 => Some(Instruction::PUSH(StackTarget::DE)),
            0xe5 => Some(Instruction::PUSH(StackTarget::HL)),
            0xf5 => Some(Instruction::PUSH(StackTarget::AF)),
            0xc1 => Some(Instruction::POP(StackTarget::BC)),
            0xd1 => Some(Instruction::POP(StackTarget::DE)),
            0xe1 => Some(Instruction::POP(StackTarget::HL)),
            0xf1 => Some(Instruction::POP(StackTarget::AF)),
            _ => None,
        }
    }
}

/// The prefixed opcode table: the low three bits name the operand, the rest the operation.
pub open spec fn decode_prefixed(byte: u8) -> Instruction {
    let t = prefix_target_of((byte % 8) as int);
    let op = byte / 8;
    if op == 0 {
        Instruction::RLC(t)
    } else if op == 1 {
        Instruction::RRC(t)
    } else if op == 2 {
        Instruction::RL(t)
    } else if op == 3 {
        Instruction::RR(t)
    } else if op == 4 {
        Instruction::SLA(t)
    } else if op == 5 {
        Instruction::SRA(t)
    } else if op == 6 {
        Instruction::SWAP(t)
    } else if op == 7 {
        Instruction::SRL(t)
    } else if op < 16 {
        Instruction::BIT((op - 8) as u8, t)
    } else if op < 24 {
        Instruction::RESET((op - 16) as u8, t)
    } else {
        Instruction::SET((op - 24) as u8, t)
    }
}

fn arith_target(col: u8) -> (r: Option<ArithmeticTarget>)
    ensures
        r == arith_target_of(col as int),
{
    match col {
        0 => Some(ArithmeticTarget::B),
        1 => Some(ArithmeticTarget::C),
        2 => Some(ArithmeticTarget::D),
        3 => Some(ArithmeticTarget::E),
        4 => Some(ArithmeticTarget::H),
        5 => Some(ArithmeticTarget::L),
        7 => Some(ArithmeticTarget::A),
        _ => None,
    }
}

fn load_target(row: u8) -> (r: LoadByteTarget)
    ensures
        r == load_target_of(row as int),
{
    match row {
        0 => LoadByteTarget::B,
        1 => LoadByteTarget::C,
        2 => LoadByteTarget::D,
        3 => LoadByteTarget::E,
        4 => LoadByteTarget::H,
        5 => LoadByteTarget::L,
        6 => LoadByteTarget::HLI,
        _ => LoadByteTarget::A,
    }
}

fn load_source(col: u8) -> (r: LoadByteSource)
    ensures
        r == load_source_of(col as int),
{
    match col {
        0 => LoadByteSource::B,
        1 => LoadByteSource::C,
        2 => LoadByteSource::D,
        3 => LoadByteSource::E,
        4 => LoadByteSource::H,
        5 => LoadByteSource::L,
        6 => LoadByteSource::HLI,
        _ => LoadByteSource::A,
    }
}

fn prefix_target(col: u8) -> (r: PrefixTarget)
    ensures
        r == prefix_target_of(col as int),
{
    match col {
        0 => PrefixTarget::B,
        1 => PrefixTarget::C,
        2 => PrefixTarget::D,
        3 => PrefixTarget::E,
        4 => PrefixTarget::H,
        5 => PrefixTarget::L,
        6 => PrefixTarget::HLI,
        _ => PrefixTarget::A,
    }
}

fn alu(row: u8, t: ArithmeticTarget) -> (r: Instruction)
    ensures
        r == alu_of(row as int, t),
{
    match row {
        0 => Instruction::ADD(t),
        1 => Instruction::ADC(t),
        2 => Instruction::SUB(t),
        3 => Instruction::SBC(t),
        4 => Instruction::AND(t),
        5 => Instruction::XOR(t),
        6 => Instruction::OR(t),
        _ => Instruction::CP(t),
    }
}

impl Instruction {
    /// Decodes an opcode byte: against the prefixed table when the byte followed the
    /// prefix byte, else against the primary table, where an unknown byte gives `None`.
    pub fn from_byte(byte: u8, prefixed: bool) -> (r: Option<Instruction>)
        ensures
            r == (if prefixed {
                Some(decode_prefixed(byte))
            } else {
                decode(byte)
            }),
    {
        if prefixed {
            Some(Instruction::from_byte_prefixed(byte))
        } else {
            Instruction::from_byte_not_prefixed(byte)
        }
    }

    /// Decodes a byte of the prefixed table.
    pub fn from_byte_prefixed(byte: u8) -> (r: Instruction)
        ensures
            r == decode_prefixed(byte),
    {
        let t = prefix_target(byte % 8);
        let op = byte / 8;
        if op == 0 {
            Instruction::RLC(t)
        } else if op == 1 {
            Instruction::RRC(t)
        } else if op == 2 {
            Instruction::RL(t)
        } else if op == 3 {
            Instruction::RR(t)
        } else if op == 4 {
            Instruction::SLA(t)
        } else if op == 5 {
            Instruction::SRA(t)
        } else if op == 6 {
            Instruction::SWAP(t)
        } else if op == 7 {
            Instruction::SRL(t)
        } else if op < 16 {
            Instruction::BIT(op - 8, t)
        } else if op < 24 {
            Instruction::RESET(op - 16, t)
        } else {
            Instruction::SET(op - 24, t)
        }
    }

    /// Decodes a byte of the primary table.
    pub fn from_byte_not_prefixed(byte: u8) -> (r: Option<Instruction>)
        ensures
            r == decode(byte),
    {
        reveal(decode);
        if 0x40 <= byte && byte <= 0x7F {
            if byte == 0x76 {
                Some(Instruction::HALT)
            } else {
                Some(
                    Instruction::LD(
                        LoadType::Byte(load_target((byte - 0x40) / 8), load_source(byte % 8)),
                    ),
                )
            }
        } else if 0x80 <= byte && byte <= 0xBF {
            match arith_target(byte % 8) {
                Some(t) => Some(alu((byte - 0x80) / 8, t)),
                None => None,
            }
        } else {
            match byte {
                0x00 => Some(Instruction::NOP),
                0x3c => Some(Instruction::INC(IncDecTarget::A)),
                0x04 => Some(Instruction::INC(IncDecTarget::B)),
                0x0c => Some(Instruction::INC(IncDecTarget::C)),
                0x14 => Some(Instruction::INC(IncDecTarget::D)),
                0x1c => Some(Instruction::INC(IncDecTarget::E)),
                0x24 => Some(Instruction::INC(IncDecTarget::H)),
                0x2c => Some(Instruction::INC(IncDecTarget::L)),
                0x03 => Some(Instruction::INC(IncDecTarget::BC)),
                0x13 => Some(Instruction::INC(IncDecTarget::DE)),
                0x23 => Some(Instruction::INC(IncDecTarget::HL)),
                0x33 => Some(Instruction::INC(IncDecTarget::SP)),
                0x3d => Some(Instruction::DEC(IncDecTarget::A)),
                0x05 => Some(Instruction::DEC(IncDecTarget::B)),
                0x0d => Some(Instruction::DEC(IncDecTarget::C)),
                0x15 => Some(Instruction::DEC(IncDecTarget::D)),
                0x1d => Some(Instruction::DEC(IncDecTarget::E)),
                0x25 => Some(Instruction::DEC(IncDecTarget::H)),
                0x2d => Some(Instruction::DEC(IncDecTarget::L)),
                0x0b => Some(Instruction::DEC(IncDecTarget::BC)),
                0x1b => Some(Instruction::DEC(IncDecTarget::DE)),
                0x2b => Some(Instruction::DEC(IncDecTarget::HL)),
                0x3b => Some(Instruction::DEC(IncDecTarget::SP)),
                0x09 => Some(Instruction::ADDHL(ADDHLTarget::BC)),
                0x19 => Some(Instruction::ADDHL(ADDHLTarget::DE)),
                0x29 => Some(Instruction::ADDHL(ADDHLTarget::HL)),
                0x39 => Some(Instruction::ADDHL(ADDHLTarget::SP)),
                0x06 => Some(Instruction::LD(LoadType::Byte(LoadByteTarget::B, LoadByteSource::D8))),
                0x0e => Some(Instruction::LD(LoadType::Byte(LoadByteTarget::C, LoadByteSource::D8))),
                0x16 => Some(Instruction::LD(LoadType::Byte(LoadByteTarget::D, LoadByteSource::D8))),
                0x1e => Some(Instruction::LD(LoadType::Byte(LoadByteTarget::E, LoadByteSource::D8))),
                0x26 => Some(Instruction::LD(LoadType::Byte(LoadByteTarget::H, LoadByteSource::D8))),
                0x2e => Some(Instruction::LD(LoadType::Byte(LoadByteTarget::L, LoadByteSource::D8))),
                0x36 => Some(
                    Instruction::LD(LoadType::Byte(LoadByteTarget::HLI, LoadByteSource::D8)),
                ),
                0x3e => Some(Instruction::LD(LoadType::Byte(LoadByteTarget::A, LoadByteSource::D8))),
                0x07 => Some(Instruction::RRLA),
                0x0f => Some(Instruction::RRCA),
                0x17 => Some(Instruction::RLA),
                0x1f => Some(Instruction::RRA),
                0x2f => Some(Instruction::CPL),
                0x37 => Some(Instruction::SCF),
                0x3f => Some(Instruction::CCF),
                0xc3 => Some(Instruction::JP(JumpTest::Always)),
                0xc2 => Some(Instruction::JP(JumpTest::NotZero)),
                0xca => Some(Instruction::JP(JumpTest::Zero)),
                0xd2 => Some(Instruction::JP(JumpTest::NotCarry)),
                0xda => Some(Instruction::JP(JumpTest::Carry)),
                0xcd => Some(Instruction::CALL(JumpTest::Always)),
                0xc4 => Some(Instruction::CALL(JumpTest::NotZero)),
                0xcc => Some(Instruction::CALL(JumpTest::Zero)),
                0xd4 => Some(Instruction::CALL(JumpTest::NotCarry)),
                0xdc => Some(Instruction::CALL(JumpTest::Carry)),
                0xc9 => Some(Instruction::RET(JumpTest::Always)),
                0xc0 => Some(Instruction::RET(JumpTest::NotZero)),
                0xc8 => Some(Instruction::RET(JumpTest::Zero)),
                0xd0 => Some(Instruction::RET(JumpTest::NotCarry)),
                0xd8 => Some(Instruction::RET(JumpTest::Carry)),
                0xc5 => Some(Instruction::PUSH(StackTarget::BC)),
                0xd5 => Some(Instruction::PUSH(StackTarget::DE)),
                0xe5 => Some(Instruction::PUSH(StackTarget::HL)),
                0xf5 => Some(Instruction::PUSH(StackTarget::AF)),
                0xc1 => Some(Instruction::POP(StackTarget::BC)),
                0xd1 => Some(Instruction::POP(StackTarget::DE)),
                0xe1 => Some(Instruction::POP(StackTarget::HL)),
                0xf1 => Some(Instruction::POP(StackTarget::AF)),
                _ => None,
            }
        }
    }
}

} // verus!
