use vstd::prelude::*;
use crate::cpu::flags_register::FlagsRegister;
use crate::cpu::instruction::{Instruction, decode, decode_prefixed, PREFIX_BYTE};
use crate::cpu::memory_bus::{BusError, bus_read, bus_write, in_vram};
use crate::cpu::registers::{Registers, RegisterPair, word, high_byte, low_byte};
use crate::cpu::targets::{
    ADDHLTarget, ArithmeticTarget, IncDecTarget, JumpTest, LoadByteSource, LoadByteTarget,
    LoadType, StackTarget,
};

verus! {

/// What the machine is: registers, program counter, stack pointer, the bytes of
/// video memory, and whether it has halted.
pub struct MachineState {
    pub registers: Registers,
    pub pc: u16,
    pub sp: u16,
    pub memory: Seq<u8>,
    pub halted: bool,
}

/// `x` modulo 2^16.
pub open spec fn wrap16(x: int) -> u16 {
    (x % 0x10000) as u16
}

/// `x` modulo 2^8.
pub open spec fn wrap8(x: int) -> u8 {
    (x % 0x100) as u8
}

/// Reading `addr` on the machine's bus.
pub open spec fn read_mem(s: MachineState, addr: u16) -> Result<u8, BusError> {
    bus_read(s.memory, addr)
}

/// The flags after an 8-bit addition `a + b`: zero when the wrapped sum is zero,
/// subtract clear, half-carry on a carry out of bit 3, carry on a carry out of bit 7.
pub open spec fn add_flags(a: u8, b: u8) -> FlagsRegister {
    FlagsRegister {
        zero: wrap8(a + b) == 0,
        subtract: false,
        half_carry: (a & 0xF) + (b & 0xF) > 0xF,
        carry: a + b > 0xFF,
    }
}

/// The flags after adding `v` to `hl`: zero kept, subtract clear, half-carry on a
/// carry out of bit 11, carry on a carry out of bit 15.
pub open spec fn add_hl_flags(f: FlagsRegister, hl: u16, v: u16) -> FlagsRegister {
    FlagsRegister {
        zero: f.zero,
        subtract: false,
        half_carry: (hl & 0x7FF) + (v & 0x7FF) > 0x7FF,
        carry: hl + v > 0xFFFF,
    }
}

/// The flags after incrementing the 8-bit value `v`: carry kept.
pub open spec fn inc_flags(f: FlagsRegister, v: u8) -> FlagsRegister {
    FlagsRegister { zero: wrap8(v + 1) == 0, subtract: false, half_carry: (v & 0xF) == 0xF, carry: f.carry }
}

/// The flags after decrementing the 8-bit value `v`: half-carry on a borrow from bit 4,
/// carry kept.
pub open spec fn dec_flags(f: FlagsRegister, v: u8) -> FlagsRegister {
    FlagsRegister { zero: wrap8(v - 1) == 0, subtract: true, half_carry: (v & 0xF) == 0, carry: f.carry }
}

/// Whether a condition holds under flags `f`.
pub open spec fn condition_holds(f: FlagsRegister, test: JumpTest) -> bool {
    match test {
        JumpTest::NotZero => !f.zero,
        JumpTest::Zero => f.zero,
        JumpTest::NotCarry => !f.carry,
        JumpTest::Carry => f.carry,
        JumpTest::Always => true,
    }
}

/// The 8-bit register that an increment or decrement names, if it names one.
pub open spec fn incdec_register(t: IncDecTarget) -> Option<ArithmeticTarget> {
    match t {
        IncDecTarget::A => Some(ArithmeticTarget::A),
        IncDecTarget::B => Some(ArithmeticTarget::B),
        IncDecTarget::C => Some(ArithmeticTarget::C),
        IncDecTarget::D => Some(ArithmeticTarget::D),
        IncDecTarget::E => Some(ArithmeticTarget::E),
        IncDecTarget::H => Some(ArithmeticTarget::H),
        IncDecTarget::L => Some(ArithmeticTarget::L),
        _ => None,
    }
}

/// The register pair that an increment or decrement names, if it names one.
pub open spec fn incdec_pair(t: IncDecTarget) -> Option<RegisterPair> {
    match t {
        IncDecTarget::BC => Some(RegisterPair::BC),
        IncDecTarget::DE => Some(RegisterPair::DE),
        IncDecTarget::HL => Some(RegisterPair::HL),
        _ => None,
    }
}

/// The value that an increment or decrement operates on.
pub open spec fn incdec_value(s: MachineState, t: IncDecTarget) -> int {
    match incdec_register(t) {
        Some(r) => s.registers.reg(r) as int,
        None => match incdec_pair(t) {
            Some(p) => s.registers.pair(p) as int,
            None => s.sp as int,
        },
    }
}

/// Increment: an 8-bit register wraps modulo 2^8 and sets zero, subtract and
/// half-carry; a pair or the stack pointer wraps modulo 2^16 and keeps every flag.
pub open spec fn inc_spec(s: MachineState, t: IncDecTarget) -> MachineState {
    match incdec_register(t) {
        Some(r) => {
            let v = s.registers.reg(r);
            let regs = s.registers.with_reg(r, wrap8(v + 1));
            MachineState { registers: Registers { f: inc_flags(s.registers.f, v), ..regs }, ..s }
        },
        None => match incdec_pair(t) {
            Some(p) => MachineState {
                registers: s.registers.with_pair(p, wrap16(s.registers.pair(p) + 1)),
                ..s
            },
            None => MachineState { sp: wrap16(s.sp + 1), ..s },
        },
    }
}

/// Decrement, the mirror of increment.
pub open spec fn dec_spec(s: MachineState, t: IncDecTarget) -> MachineState {
    match incdec_register(t) {
        Some(r) => {
            let v = s.registers.reg(r);
            let regs = s.registers.with_reg(r, wrap8(v - 1));
            MachineState { registers: Registers { f: dec_flags(s.registers.f, v), ..regs }, ..s }
        },
        None => match incdec_pair(t) {
            Some(p) => MachineState {
                registers: s.registers.with_pair(p, wrap16(s.registers.pair(p) - 1)),
                ..s
            },
            None => MachineState { sp: wrap16(s.sp - 1), ..s },
        },
    }
}

/// The registers after adding `v` to A.
pub open spec fn add_spec(r: Registers, v: u8) -> Registers {
    Registers { a: wrap8(r.a + v), f: add_flags(r.a, v), ..r }
}

/// The 16-bit operand of an add to HL.
pub open spec fn add_hl_operand(s: MachineState, t: ADDHLTarget) -> u16 {
    match t {
        ADDHLTarget::BC => s.registers.pair(RegisterPair::BC),
        ADDHLTarget::DE => s.registers.pair(RegisterPair::DE),
        ADDHLTarget::HL => s.registers.pair(RegisterPair::HL),
        ADDHLTarget::SP => s.sp,
    }
}

/// The registers after adding `v` to HL.
pub open spec fn add_hl_spec(r: Registers, v: u16) -> Registers {
    let hl = r.pair(RegisterPair::HL);
    Registers { f: add_hl_flags(r.f, hl, v), ..r.with_pair(RegisterPair::HL, wrap16(hl + v)) }
}

/// The little-endian word in the two bytes after the opcode.
pub open spec fn read_word_spec(s: MachineState) -> Result<u16, BusError> {
    match read_mem(s, wrap16(s.pc + 1)) {
        Err(e) => Err(e),
        Ok(low) => match read_mem(s, wrap16(s.pc + 2)) {
            Err(e) => Err(e),
            Ok(high) => Ok(word(high, low)),
        },
    }
}

/// The next program counter of a jump: its target when taken, else past its three bytes.
pub open spec fn jump_spec(s: MachineState, taken: bool) -> Result<u16, BusError> {
    if taken {
        read_word_spec(s)
    } else {
        Ok(wrap16(s.pc + 3))
    }
}

/// Push: the high byte goes below the stack pointer, the low byte below that, and the
/// stack pointer ends at the low byte.
pub open spec fn push_spec(s: MachineState, v: u16) -> Result<MachineState, BusError> {
    let sp1 = wrap16(s.sp - 1);
    let sp2 = wrap16(s.sp - 2);
    match bus_write(s.memory, sp1, high_byte(v)) {
        Err(e) => Err(e),
        Ok(m1) => match bus_write(m1, sp2, low_byte(v)) {
            Err(e) => Err(e),
            Ok(m2) => Ok(MachineState { sp: sp2, memory: m2, ..s }),
        },
    }
}

/// Pop: the low byte at the stack pointer, the high byte above it; the stack pointer
/// moves up by two.
pub open spec fn pop_spec(s: MachineState) -> Result<(MachineState, u16), BusError> {
    match read_mem(s, s.sp) {
        Err(e) => Err(e),
        Ok(low) => match read_mem(s, wrap16(s.sp + 1)) {
            Err(e) => Err(e),
            Ok(high) => Ok((MachineState { sp: wrap16(s.sp + 2), ..s }, word(high, low))),
        },
    }
}

/// Call: when taken, the target is read, the address past the three-byte instruction
/// is pushed and the target is next; else the address past the instruction is next.
pub open spec fn call_spec(s: MachineState, taken: bool) -> Result<(MachineState, u16), BusError> {
    let next = wrap16(s.pc + 3);
    if taken {
        match read_word_spec(s) {
            Err(e) => Err(e),
            Ok(target) => match push_spec(s, next) {
                Err(e) => Err(e),
                Ok(s2) => Ok((s2, target)),
            },
        }
    } else {
        Ok((s, next))
    }
}

/// Return: when taken, the popped address is next; else the address past its one byte.
pub open spec fn return_spec(s: MachineState, taken: bool) -> Result<(MachineState, u16), BusError> {
    if taken {
        pop_spec(s)
    } else {
        Ok((s, wrap16(s.pc + 1)))
    }
}

/// The register pair that a push or pop moves.
pub open spec fn stack_pair(t: StackTarget) -> RegisterPair {
    match t {
        StackTarget::BC => RegisterPair::BC,
        StackTarget::DE => RegisterPair::DE,
        StackTarget::HL => RegisterPair::HL,
        StackTarget::AF => RegisterPair::AF,
    }
}

/// The byte that a load reads.
pub open spec fn load_source_value(s: MachineState, src: LoadByteSource) -> Result<u8, BusError> {
    match src {
        LoadByteSource::A => Ok(s.registers.a),
        LoadByteSource::B => Ok(s.registers.b),
        LoadByteSource::C => Ok(s.registers.c),
        LoadByteSource::D => Ok(s.registers.d),
        LoadByteSource::E => Ok(s.registers.e),
        LoadByteSource::H => Ok(s.registers.h),
        LoadByteSource::L => Ok(s.registers.l),
        LoadByteSource::D8 => read_mem(s, wrap16(s.pc + 1)),
        LoadByteSource::HLI => read_mem(s, s.registers.pair(RegisterPair::HL)),
    }
}

/// The machine after a load writes `v`.
pub open spec fn load_store_spec(s: MachineState, dst: LoadByteTarget, v: u8) -> Result<
    MachineState,
    BusError,
> {
    let r = s.registers;
    match dst {
        LoadByteTarget::A => Ok(MachineState { registers: Registers { a: v, ..r }, ..s }),
        LoadByteTarget::B => Ok(MachineState { registers: Registers { b: v, ..r }, ..s }),
        LoadByteTarget::C => Ok(MachineState { registers: Registers { c: v, ..r }, ..s }),
        LoadByteTarget::D => Ok(MachineState { registers: Registers { d: v, ..r }, ..s }),
        LoadByteTarget::E => Ok(MachineState { registers: Registers { e: v, ..r }, ..s }),
        LoadByteTarget::H => Ok(MachineState { registers: Registers { h: v, ..r }, ..s }),
        LoadByteTarget::L => Ok(MachineState { registers: Registers { l: v, ..r }, ..s }),
        LoadByteTarget::HLI => match bus_write(s.memory, r.pair(RegisterPair::HL), v) {
            Err(e) => Err(e),
            Ok(m) => Ok(MachineState { memory: m, ..s }),
        },
    }
}

/// A byte load: read the source, write the destination, and move past the opcode and,
/// for a literal source, the literal byte.
pub open spec fn load_spec(s: MachineState, dst: LoadByteTarget, src: LoadByteSource) -> Result<
    (MachineState, u16),
    BusError,
> {
    match load_source_value(s, src) {
        Err(e) => Err(e),
        Ok(v) => match load_store_spec(s, dst, v) {
            Err(e) => Err(e),
            Ok(s2) => Ok(
                (
                    s2,
                    if src == LoadByteSource::D8 {
                        wrap16(s.pc + 2)
                    } else {
                        wrap16(s.pc + 1)
                    },
                ),
            ),
        },
    }
}

/// Executing one instruction: the machine after it and the next program counter, or
/// the bus fault that stopped it, in which case nothing changed. The program counter
/// of the returned machine is the one it had; a halted machine does nothing; an
/// instruction family with no semantics here does nothing and stays put.
#[verifier::opaque]
pub open spec fn execute_spec(s: MachineState, i: Instruction) -> Result<(MachineState, u16), BusError> {
    if s.halted {
        Ok((s, s.pc))
    } else {
        match i {
            Instruction::INC(t) => Ok((inc_spec(s, t), wrap16(s.pc + 1))),
            Instruction::DEC(t) => Ok((dec_spec(s, t), wrap16(s.pc + 1))),
            Instruction::ADD(t) => Ok(
                (
                    MachineState { registers: add_spec(s.registers, s.registers.reg(t)), ..s },
                    wrap16(s.pc + 1),
                ),
            ),
            Instruction::ADDHL(t) => Ok(
                (
                    MachineState {
                        registers: add_hl_spec(s.registers, add_hl_operand(s, t)),
                        ..s
                    },
                    wrap16(s.pc + 1),
                ),
            ),
            Instruction::JP(test) => match jump_spec(s, condition_holds(s.registers.f, test)) {
                Err(e) => Err(e),
                Ok(pc) => Ok((s, pc)),
            },
            Instruction::LD(LoadType::Byte(dst, src)) => load_spec(s, dst, src),
            Instruction::PUSH(t) => match push_spec(s, s.registers.pair(stack_pair(t))) {
                Err(e) => Err(e),
                Ok(s2) => Ok((s2, wrap16(s.pc + 1))),
            },
            Instruction::POP(t) => match pop_spec(s) {
                Err(e) => Err(e),
                Ok((s2, v)) => Ok(
                    (
                        MachineState {
                            registers: s2.registers.with_pair(stack_pair(t), v),
                            ..s2
                        },
                        wrap16(s.pc + 1),
                    ),
                ),
            },
            Instruction::CALL(test) => call_spec(s, condition_holds(s.registers.f, test)),
            Instruction::RET(test) => return_spec(s, condition_holds(s.registers.f, test)),
            Instruction::NOP => Ok((s, wrap16(s.pc + 1))),
            Instruction::HALT => Ok((MachineState { halted: true, ..s }, s.pc)),
            _ => Ok((s, s.pc)),
        }
    }
}

/// Runs a decoded instruction, or nothing when decoding gave none.
pub open spec fn run_decoded(s: MachineState, d: Option<Instruction>) -> Result<MachineState, BusError> {
    match d {
        None => Ok(s),
        Some(i) => match execute_spec(s, i) {
            Err(e) => Err(e),
            Ok((s2, pc)) => Ok(MachineState { pc, ..s2 }),
        },
    }
}

/// One fetch, decode and execute: a halted machine stays as it is; the byte at the
/// program counter is decoded, or after the prefix byte the byte that follows it,
/// against the prefixed table.
pub open spec fn step_spec(s: MachineState) -> Result<MachineState, BusError> {
    if s.halted {
        Ok(s)
    } else {
        match read_mem(s, s.pc) {
            Err(e) => Err(e),
            Ok(b) => if b == PREFIX_BYTE {
                match read_mem(s, wrap16(s.pc + 1)) {
                    Err(e) => Err(e),
                    Ok(b2) => run_decoded(s, Some(decode_prefixed(b2))),
                }
            } else {
                run_decoded(s, decode(b))
            },
        }
    }
}

/// `n` steps in a row, stopping at the first fault.
pub open spec fn steps_spec(s: MachineState, n: nat) -> Result<MachineState, BusError>
    decreases n,
{
    if n == 0 {
        Ok(s)
    } else {
        match step_spec(s) {
            Err(e) => Err(e),
            Ok(s2) => steps_spec(s2, (n - 1) as nat),
        }
    }
}

proof fn lemma_execute_push_pop(s: MachineState, t: StackTarget)
    ensures
        execute_spec(s, Instruction::PUSH(t)) == (if s.halted {
            Ok((s, s.pc))
        } else {
            match push_spec(s, s.registers.pair(stack_pair(t))) {
                Err(e) => Err(e),
                Ok(s2) => Ok((s2, wrap16(s.pc + 1))),
            }
        }),
        execute_spec(s, Instruction::POP(t)) == (if s.halted {
            Ok((s, s.pc))
        } else {
            match pop_spec(s) {
                Err(e) => Err(e),
                Ok((s2, v)) => Ok(
                    (
                        MachineState { registers: s2.registers.with_pair(stack_pair(t), v), ..s2 },
                        wrap16(s.pc + 1),
                    ),
                ),
            }
        }),
{
    reveal(execute_spec);
}

proof fn lemma_execute_inc_dec(s: MachineState, t: IncDecTarget)
    ensures
        !s.halted ==> execute_spec(s, Instruction::INC(t)) == Ok::<(MachineState, u16), BusError>(
            (inc_spec(s, t), wrap16(s.pc + 1)),
        ),
        !s.halted ==> execute_spec(s, Instruction::DEC(t)) == Ok::<(MachineState, u16), BusError>(
            (dec_spec(s, t), wrap16(s.pc + 1)),
        ),
{
    reveal(execute_spec);
}

/// Push then pop gives back the pushed word and puts the stack pointer back where it
/// was, whenever the two bytes below the stack pointer are mapped.
pub proof fn lemma_push_pop(s: MachineState, v: u16)
    requires
        in_vram(wrap16(s.sp - 1)),
        in_vram(wrap16(s.sp - 2)),
        s.memory.len() == crate::gpu::VRAM_SIZE,
    ensures
        push_spec(s, v) is Ok,
        pop_spec(push_spec(s, v)->Ok_0) == Ok::<(MachineState, u16), BusError>(
            (MachineState { sp: s.sp, ..push_spec(s, v)->Ok_0 }, v),
        ),
{
    let sp1 = wrap16(s.sp - 1);
    let sp2 = wrap16(s.sp - 2);
    let m1 = s.memory.update(sp1 - 0x8000, high_byte(v));
    let m2 = m1.update(sp2 - 0x8000, low_byte(v));
    assert(sp1 != sp2);
    assert(push_spec(s, v) == Ok::<MachineState, BusError>(
        MachineState { sp: sp2, memory: m2, ..s },
    ));
    assert(wrap16(sp2 + 1) == sp1);
    assert(wrap16(sp2 + 2) == s.sp);
    assert(m2[sp2 - 0x8000] == low_byte(v));
    assert(m2[sp1 - 0x8000] == high_byte(v));
    assert(word(high_byte(v), low_byte(v)) == v);
}

/// Pushing a register pair and popping it into the same pair restores every register
/// and the stack pointer, whenever the two bytes below the stack pointer are mapped.
pub proof fn lemma_push_pop_pair(s: MachineState, t: StackTarget)
    requires
        in_vram(wrap16(s.sp - 1)),
        in_vram(wrap16(s.sp - 2)),
        s.memory.len() == crate::gpu::VRAM_SIZE,
    ensures
        execute_spec(s, Instruction::PUSH(t)) is Ok,
        execute_spec(execute_spec(s, Instruction::PUSH(t))->Ok_0.0, Instruction::POP(t)) is Ok,
        execute_spec(
            execute_spec(s, Instruction::PUSH(t))->Ok_0.0,
            Instruction::POP(t),
        )->Ok_0.0.registers == s.registers,
        execute_spec(
            execute_spec(s, Instruction::PUSH(t))->Ok_0.0,
            Instruction::POP(t),
        )->Ok_0.0.sp == s.sp,
{
    lemma_execute_push_pop(s, t);
    let v = s.registers.pair(stack_pair(t));
    if !s.halted {
        lemma_push_pop(s, v);
        let s1 = push_spec(s, v)->Ok_0;
        lemma_execute_push_pop(s1, t);
        crate::cpu::registers::lemma_pair_round_trip(s.registers, stack_pair(t), 0, 0);
    }
}

/// Increment then decrement, or decrement then increment, of any operand gives back
/// its value, wrapping at 0x00 and 0xFF for a register and at 0x0000 and 0xFFFF for a
/// pair or the stack pointer.
pub proof fn lemma_inc_dec_inverse(s: MachineState, t: IncDecTarget)
    ensures
        !s.halted ==> execute_spec(s, Instruction::INC(t)) == Ok::<(MachineState, u16), BusError>(
            (inc_spec(s, t), wrap16(s.pc + 1)),
        ),
        !s.halted ==> execute_spec(s, Instruction::DEC(t)) == Ok::<(MachineState, u16), BusError>(
            (dec_spec(s, t), wrap16(s.pc + 1)),
        ),
        inc_spec(s, t).halted == s.halted && dec_spec(s, t).halted == s.halted,
        incdec_value(dec_spec(inc_spec(s, t), t), t) == incdec_value(s, t),
        incdec_value(inc_spec(dec_spec(s, t), t), t) == incdec_value(s, t),
{
    lemma_execute_inc_dec(s, t);
    lemma_inc_dec_values(s, t);
}

proof fn lemma_inc_dec_values(s: MachineState, t: IncDecTarget)
    ensures
        incdec_value(dec_spec(inc_spec(s, t), t), t) == incdec_value(s, t),
        incdec_value(inc_spec(dec_spec(s, t), t), t) == incdec_value(s, t),
{
    match incdec_register(t) {
        Some(r) => lemma_inc_dec_register(s, t, r),
        None => match incdec_pair(t) {
            Some(p) => lemma_inc_dec_pair(s, t, p),
            None => {
                assert(wrap16(wrap16(s.sp + 1) - 1) == s.sp);
                assert(wrap16(wrap16(s.sp - 1) + 1) == s.sp);
            },
        },
    }
}

proof fn lemma_inc_dec_register(s: MachineState, t: IncDecTarget, r: ArithmeticTarget)
    requires
        incdec_register(t) == Some(r),
    ensures
        incdec_value(dec_spec(inc_spec(s, t), t), t) == incdec_value(s, t),
        incdec_value(inc_spec(dec_spec(s, t), t), t) == incdec_value(s, t),
{
    let v = s.registers.reg(r);
    assert(wrap8(wrap8(v + 1) - 1) == v);
    assert(wrap8(wrap8(v - 1) + 1) == v);
    lemma_reg_write_read(s.registers, r, wrap8(v + 1), inc_flags(s.registers.f, v));
    lemma_reg_write_read(s.registers, r, wrap8(v - 1), dec_flags(s.registers.f, v));
    let s1 = inc_spec(s, t);
    let s2 = dec_spec(s, t);
    lemma_reg_write_read(s1.registers, r, v, dec_flags(s1.registers.f, wrap8(v + 1)));
    lemma_reg_write_read(s2.registers, r, v, inc_flags(s2.registers.f, wrap8(v - 1)));
}

proof fn lemma_inc_dec_pair(s: MachineState, t: IncDecTarget, p: RegisterPair)
    requires
        incdec_register(t) is None,
        incdec_pair(t) == Some(p),
    ensures
        incdec_value(dec_spec(inc_spec(s, t), t), t) == incdec_value(s, t),
        incdec_value(inc_spec(dec_spec(s, t), t), t) == incdec_value(s, t),
{
    let v = s.registers.pair(p);
    let up = wrap16(v + 1);
    let down = wrap16(v - 1);
    assert(wrap16(up - 1) == v);
    assert(wrap16(down + 1) == v);
    lemma_pair_write_read(s.registers, p, up);
    lemma_pair_write_read(s.registers, p, down);
    lemma_pair_write_read(s.registers.with_pair(p, up), p, v);
    lemma_pair_write_read(s.registers.with_pair(p, down), p, v);
}

proof fn lemma_reg_write_read(r: Registers, t: ArithmeticTarget, v: u8, f: FlagsRegister)
    ensures
        (Registers { f, ..r.with_reg(t, v) }).reg(t) == v,
{
}

proof fn lemma_pair_write_read(r: Registers, p: RegisterPair, v: u16)
    requires
        p != RegisterPair::AF,
    ensures
        r.with_pair(p, v).pair(p) == v,
{
    assert(word(high_byte(v), low_byte(v)) == v);
}

/// After HALT nothing moves: every later step, however many, leaves the machine,
/// its program counter and its registers as they were.
pub proof fn lemma_halt_stops(s: MachineState, n: nat)
    ensures
        execute_spec(s, Instruction::HALT) == Ok::<(MachineState, u16), BusError>(
            (MachineState { halted: true, ..s }, s.pc),
        ),
        steps_spec(MachineState { halted: true, ..s }, n) == Ok::<MachineState, BusError>(
            MachineState { halted: true, ..s },
        ),
    decreases n,
{
    reveal(execute_spec);
    if n > 0 {
        lemma_halt_stops(s, (n - 1) as nat);
    }
}

} // verus!
