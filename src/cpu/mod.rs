pub mod flags_register;
pub mod instruction;
pub mod memory_bus;
pub mod registers;
pub mod semantics;
pub mod targets;

use vstd::prelude::*;
use self::flags_register::FlagsRegister;
use self::memory_bus::{BusError, MemoryBus};
use self::registers::{Registers, RegisterPair};
use self::instruction::{Instruction, PREFIX_BYTE};
use self::semantics::{
    MachineState, add_flags, add_hl_flags, call_spec, condition_holds, dec_spec, execute_spec,
    inc_spec, incdec_register, jump_spec, load_spec, pop_spec, push_spec, read_mem,
    read_word_spec, return_spec, stack_pair, step_spec, wrap16, wrap8,
};
use self::targets::{
    ADDHLTarget, ArithmeticTarget, IncDecTarget, JumpTest, LoadByteSource, LoadByteTarget,
    LoadType, StackTarget,
};

verus! {

/// The machine: registers, program counter, stack pointer, memory bus and the halted flag.
#[derive(Clone, Debug)]
pub struct CPU {
    pub registers: Registers,
    pub pc: u16,
    pub sp: u16,
    pub bus: MemoryBus,
    pub is_halted: bool,
}

impl View for CPU {
    type V = MachineState;

    open spec fn view(&self) -> MachineState {
        MachineState {
            registers: self.registers,
            pc: self.pc,
            sp: self.sp,
            memory: self.bus@,
            halted: self.is_halted,
        }
    }
}

fn register_of(t: IncDecTarget) -> (r: Option<ArithmeticTarget>)
    ensures
        r == incdec_register(t),
{
    match t {
        IncDecTarget::A => Some(ArithmeticTarget::A),
        IncDecTarget::B => Some(ArithmeticTarget::B),
        IncDecTarget::C => Some(ArithmeticTarget::C),
        IncDecTarget::D => Some(ArithmeticTarget::D),
        IncDecTarget::E => Some(ArithmeticTarget::E),
        IncDecTarget::H => Some(ArithmeticTarget::H),
        IncDecTarget::L => Some(ArithmeticTarget::L),
        _ => None,
    }
}

fn pair_of(t: StackTarget) -> (r: RegisterPair)
    ensures
        r == stack_pair(t),
{
    match t {
        StackTarget::BC => RegisterPair::BC,
        StackTarget::DE => RegisterPair::DE,
        StackTarget::HL => RegisterPair::HL,
        StackTarget::AF => RegisterPair::AF,
    }
}

impl CPU {
    /// The memory bus is well formed.
    pub open spec fn wf(&self) -> bool {
        self.bus.wf()
    }

    /// A machine with zeroed registers, program counter, stack pointer and video memory.
    pub fn new() -> (r: Self)
        ensures
            r.wf(),
            r.registers == Registers::new_spec(),
            r.pc == 0 && r.sp == 0 && !r.is_halted,
            r.bus@ == Seq::new(crate::gpu::VRAM_SIZE as nat, |i: int| 0u8),
    {
        CPU { registers: Registers::new(), pc: 0, sp: 0, bus: MemoryBus::new(), is_halted: false }
    }

    /// Whether a condition holds under the current flags.
    pub fn should_jump(&self, test: JumpTest) -> (r: bool)
        ensures
            r == condition_holds(self.registers.f, test),
    {
        match test {
            JumpTest::NotZero => !self.registers.f.zero,
            JumpTest::NotCarry => !self.registers.f.carry,
            JumpTest::Zero => self.registers.f.zero,
            JumpTest::Carry => self.registers.f.carry,
            JumpTest::Always => true,
        }
    }

    /// Adds `value` to A and sets the flags of that addition; returns the wrapped sum
    /// and leaves A itself to the caller.
    pub fn add(&mut self, value: u8) -> (r: u8)
        ensures
            r == wrap8(old(self).registers.a + value),
            final(self).registers.f == add_flags(old(self).registers.a, value),
            final(self).registers.f.half_carry == ((old(self).registers.a & 0xF) + (value & 0xF)
                > 0xF),
            final(self)@ == (MachineState {
                registers: Registers { f: final(self).registers.f, ..old(self).registers },
                ..old(self)@
            }),
            final(self).bus == old(self).bus,
    {
        let a = self.registers.a;
        let res = a.wrapping_add(value);
        let low_a = a & 0xF;
        let low_v = value & 0xF;
        assert(low_a <= 0xF && low_v <= 0xF) by (bit_vector)
            requires
                low_a == a & 0xF,
                low_v == value & 0xF,
        ;
        self.registers.f.zero = res == 0;
        self.registers.f.subtract = false;
        self.registers.f.carry = a as u16 + value as u16 > 0xFF;
        self.registers.f.half_carry = low_a + low_v > 0xF;
        res
    }

    /// Sets the flags of adding `value` to HL and returns the wrapped sum; the zero flag
    /// keeps its value and HL itself is left to the caller.
    pub fn add_hl(&mut self, value: u16) -> (r: u16)
        ensures
            r == wrap16(old(self).registers.pair(RegisterPair::HL) + value),
            final(self).registers.f == add_hl_flags(
                old(self).registers.f,
                old(self).registers.pair(RegisterPair::HL),
                value,
            ),
            final(self)@ == (MachineState {
                registers: Registers { f: final(self).registers.f, ..old(self).registers },
                ..old(self)@
            }),
            final(self).bus == old(self).bus,
    {
        let hl = self.registers.get_pair(RegisterPair::HL);
        let res = hl.wrapping_add(value);
        let mask: u16 = 0b111_1111_1111;
        let low_v = value & mask;
        let low_hl = hl & mask;
        assert(low_v <= 0x7FF && low_hl <= 0x7FF) by (bit_vector)
            requires
                low_v == value & 0x7FF,
                low_hl == hl & 0x7FF,
        ;
        self.registers.f.subtract = false;
        self.registers.f.carry = hl as u32 + value as u32 > 0xFFFF;
        self.registers.f.half_carry = low_v + low_hl > mask;
        res
    }

    /// Reads the byte after the opcode.
    pub fn read_next_byte(&self) -> (r: Result<u8, BusError>)
        requires
            self.wf(),
        ensures
            r == read_mem(self@, wrap16(self.pc + 1)),
    {
        self.bus.read_byte(self.pc.wrapping_add(1))
    }

    /// Reads the little-endian word in the two bytes after the opcode.
    pub fn read_next_word(&self) -> (r: Result<u16, BusError>)
        requires
            self.wf(),
        ensures
            r == read_word_spec(self@),
    {
        let low = match self.bus.read_byte(self.pc.wrapping_add(1)) {
            Ok(b) => b,
            Err(e) => return Err(e),
        };
        let high = match self.bus.read_byte(self.pc.wrapping_add(2)) {
            Ok(b) => b,
            Err(e) => return Err(e),
        };
        let r = (high as u16) << 8 | (low as u16);
        assert(r == high * 256 + low) by (bit_vector)
            requires
                r == (high as u16) << 8 | (low as u16),
        ;
        Ok(r)
    }

    /// The next program counter of a jump: the target after the opcode when taken, else
    /// past the three-byte instruction.
    pub fn jump(&self, should_jump: bool) -> (r: Result<u16, BusError>)
        requires
            self.wf(),
        ensures
            r == jump_spec(self@, should_jump),
    {
        if should_jump {
            self.read_next_word()
        } else {
            Ok(self.pc.wrapping_add(3))
        }
    }

    /// Pushes a word: high byte, then low byte, each below the stack pointer. A fault
    /// leaves the machine unchanged.
    pub fn push(&mut self, value: u16) -> (r: Result<(), BusError>)
        requires
            old(self).wf(),
        ensures
            final(self).wf(),
            match push_spec(old(self)@, value) {
                Ok(s) => r == Ok::<(), BusError>(()) && final(self)@ == s,
                Err(e) => r == Err::<(), BusError>(e) && *final(self) == *old(self),
            },
    {
        let sp1 = self.sp.wrapping_sub(1);
        let sp2 = self.sp.wrapping_sub(2);
        let high = (value >> 8) as u8;
        let low = (value & 0xFF) as u8;
        assert(high == value / 256 && low == value % 256) by (bit_vector)
            requires
                high == (value >> 8) as u8,
                low == (value & 0xFF) as u8,
        ;
        // Both bytes are checked before either is written, so that a fault changes nothing.
        if MemoryBus::is_mapped(sp1) && !MemoryBus::is_mapped(sp2) {
            return Err(BusError::UnmappedAddress(sp2));
        }
        match self.bus.write_byte(sp1, high) {
            Ok(()) => {},
            Err(e) => return Err(e),
        }
        match self.bus.write_byte(sp2, low) {
            Ok(()) => {},
            Err(e) => return Err(e),
        }
        self.sp = sp2;
        Ok(())
    }

    /// Pops a word: low byte at the stack pointer, high byte above it. A fault leaves
    /// the machine unchanged.
    pub fn pop(&mut self) -> (r: Result<u16, BusError>)
        requires
            old(self).wf(),
        ensures
            final(self).wf(),
            match pop_spec(old(self)@) {
                Ok((s, v)) => r == Ok::<u16, BusError>(v) && final(self)@ == s,
                Err(e) => r == Err::<u16, BusError>(e) && *final(self) == *old(self),
            },
    {
        let low = match self.bus.read_byte(self.sp) {
            Ok(b) => b,
            Err(e) => return Err(e),
        };
        let high = match self.bus.read_byte(self.sp.wrapping_add(1)) {
            Ok(b) => b,
            Err(e) => return Err(e),
        };
        self.sp = self.sp.wrapping_add(2);
        let r = (high as u16) << 8 | (low as u16);
        assert(r == high * 256 + low) by (bit_vector)
            requires
                r == (high as u16) << 8 | (low as u16),
        ;
        Ok(r)
    }

    /// Call: when taken, reads the target, pushes the address past the three-byte
    /// instruction and returns the target; else returns that address.
    pub fn call(&mut self, should_jump: bool) -> (r: Result<u16, BusError>)
        requires
            old(self).wf(),
        ensures
            final(self).wf(),
            match call_spec(old(self)@, should_jump) {
                Ok((s, pc)) => r == Ok::<u16, BusError>(pc) && final(self)@ == s,
                Err(e) => r == Err::<u16, BusError>(e) && *final(self) == *old(self),
            },
    {
        let next_pc = self.pc.wrapping_add(3);
        if should_jump {
            let target = match self.read_next_word() {
                Ok(w) => w,
                Err(e) => return Err(e),
            };
            match self.push(next_pc) {
                Ok(()) => Ok(target),
                Err(e) => Err(e),
            }
        } else {
            Ok(next_pc)
        }
    }

    /// Return: when taken, pops the next program counter; else moves past the
    /// one-byte instruction.
    pub fn return_(&mut self, should_jump: bool) -> (r: Result<u16, BusError>)
        requires
            old(self).wf(),
        ensures
            final(self).wf(),
            match return_spec(old(self)@, should_jump) {
                Ok((s, pc)) => r == Ok::<u16, BusError>(pc) && final(self)@ == s,
                Err(e) => r == Err::<u16, BusError>(e) && *final(self) == *old(self),
            },
    {
        if should_jump {
            self.pop()
        } else {
            Ok(self.pc.wrapping_add(1))
        }
    }

    /// Runs one fetch, decode and execute. A halted machine does nothing; a byte that
    /// decodes to no instruction leaves the machine as it is; a bus fault leaves the
    /// machine unchanged and is returned.
    pub fn step(&mut self) -> (r: Result<(), BusError>)
        requires
            old(self).wf(),
        ensures
            final(self).wf(),
            match step_spec(old(self)@) {
                Ok(s) => r == Ok::<(), BusError>(()) && final(self)@ == s,
                Err(e) => r == Err::<(), BusError>(e) && *final(self) == *old(self),
            },
    {
        if self.is_halted {
            return Ok(());
        }
        let mut instruction_byte = match self.bus.read_byte(self.pc) {
            Ok(b) => b,
            Err(e) => return Err(e),
        };
        let prefixed = instruction_byte == PREFIX_BYTE;
        if prefixed {
            instruction_byte = match self.bus.read_byte(self.pc.wrapping_add(1)) {
                Ok(b) => b,
                Err(e) => return Err(e),
            };
        }
        match Instruction::from_byte(instruction_byte, prefixed) {
            Some(instruction) => match self.execute(instruction) {
                Ok(next_pc) => {
                    self.pc = next_pc;
                    Ok(())
                },
                Err(e) => Err(e),
            },
            None => Ok(()),
        }
    }

    /// Executes one decoded instruction and returns the next program counter, which
    /// the caller installs; a bus fault leaves the machine unchanged and is returned.
    #[verifier::rlimit(50)]
    pub fn execute(&mut self, instruction: Instruction) -> (r: Result<u16, BusError>)
        requires
            old(self).wf(),
        ensures
            final(self).wf(),
            match execute_spec(old(self)@, instruction) {
                Ok((s, pc)) => r == Ok::<u16, BusError>(pc) && final(self)@ == s,
                Err(e) => r == Err::<u16, BusError>(e) && *final(self) == *old(self),
            },
    {
        reveal(execute_spec);
        if self.is_halted {
            return Ok(self.pc);
        }
        match instruction {
            Instruction::INC(target) => {
                self.increment(target);
                Ok(self.pc.wrapping_add(1))
            },
            Instruction::DEC(target) => {
                self.decrement(target);
                Ok(self.pc.wrapping_add(1))
            },
            Instruction::ADD(target) => {
                let value = self.registers.get(target);
                self.registers.a = self.add(value);
                Ok(self.pc.wrapping_add(1))
            },
            Instruction::ADDHL(target) => {
                let value = match target {
                    ADDHLTarget::BC => self.registers.get_pair(RegisterPair::BC),
                    ADDHLTarget::DE => self.registers.get_pair(RegisterPair::DE),
                    ADDHLTarget::HL => self.registers.get_pair(RegisterPair::HL),
                    ADDHLTarget::SP => self.sp,
                };
                let res = self.add_hl(value);
                self.registers.set_pair(RegisterPair::HL, res);
                Ok(self.pc.wrapping_add(1))
            },
            Instruction::JP(test) => {
                let jump_condition = self.should_jump(test);
                self.jump(jump_condition)
            },
            Instruction::LD(LoadType::Byte(target, source)) => self.load_byte(target, source),
            Instruction::PUSH(target) => {
                let value = self.registers.get_pair(pair_of(target));
                match self.push(value) {
                    Ok(()) => Ok(self.pc.wrapping_add(1)),
                    Err(e) => Err(e),
                }
            },
            Instruction::POP(target) => match self.pop() {
                Ok(value) => {
                    self.registers.set_pair(pair_of(target), value);
                    Ok(self.pc.wrapping_add(1))
                },
                Err(e) => Err(e),
            },
            Instruction::CALL(test) => {
                let jump_condition = self.should_jump(test);
                self.call(jump_condition)
            },
            Instruction::RET(test) => {
                let jump_condition = self.should_jump(test);
                self.return_(jump_condition)
            },
            Instruction::NOP => Ok(self.pc.wrapping_add(1)),
            Instruction::HALT => {
                self.is_halted = true;
                Ok(self.pc)
            },
            _ => Ok(self.pc),
        }
    }

    fn increment(&mut self, target: IncDecTarget)
        ensures
            final(self)@ == inc_spec(old(self)@, target),
            final(self).bus == old(self).bus,
    {
        match register_of(target) {
            Some(r) => {
                let v = self.registers.get(r);
                let carry = self.registers.f.carry;
                let res = v.wrapping_add(1);
                self.registers.set(r, res);
                self.registers.f = FlagsRegister {
                    zero: res == 0,
                    subtract: false,
                    half_carry: v & 0xF == 0xF,
                    carry,
                };
            },
            None => match target {
                IncDecTarget::BC => {
                    let v = self.registers.get_pair(RegisterPair::BC);
                    self.registers.set_pair(RegisterPair::BC, v.wrapping_add(1));
                },
                IncDecTarget::DE => {
                    let v = self.registers.get_pair(RegisterPair::DE);
                    self.registers.set_pair(RegisterPair::DE, v.wrapping_add(1));
                },
                IncDecTarget::HL => {
                    let v = self.registers.get_pair(RegisterPair::HL);
                    self.registers.set_pair(RegisterPair::HL, v.wrapping_add(1));
                },
                _ => self.sp = self.sp.wrapping_add(1),
            },
        }
    }

    #[verifier::rlimit(30)]
    fn decrement(&mut self, target: IncDecTarget)
        ensures
            final(self)@ == dec_spec(old(self)@, target),
            final(self).bus == old(self).bus,
    {
        match register_of(target) {
            Some(r) => {
                let v = self.registers.get(r);
                let carry = self.registers.f.carry;
                let res = v.wrapping_sub(1);
                self.registers.set(r, res);
                self.registers.f = FlagsRegister {
                    zero: res == 0,
                    subtract: true,
                    half_carry: v & 0xF == 0,
                    carry,
                };
            },
            None => match target {
                IncDecTarget::BC => {
                    let v = self.registers.get_pair(RegisterPair::BC);
                    self.registers.set_pair(RegisterPair::BC, v.wrapping_sub(1));
                },
                IncDecTarget::DE => {
                    let v = self.registers.get_pair(RegisterPair::DE);
                    self.registers.set_pair(RegisterPair::DE, v.wrapping_sub(1));
                },
                IncDecTarget::HL => {
                    let v = self.registers.get_pair(RegisterPair::HL);
                    self.registers.set_pair(RegisterPair::HL, v.wrapping_sub(1));
                },
                _ => self.sp = self.sp.wrapping_sub(1),
            },
        }
    }

    /// A byte load: reads the source, writes the destination, and returns the address
    /// past the opcode and, for a literal source, the literal byte.
    fn load_byte(&mut self, target: LoadByteTarget, source: LoadByteSource) -> (r: Result<
        u16,
        BusError,
    >)
        requires
            old(self).wf(),
        ensures
            final(self).wf(),
            match load_spec(old(self)@, target, source) {
                Ok((s, pc)) => r == Ok::<u16, BusError>(pc) && final(self)@ == s,
                Err(e) => r == Err::<u16, BusError>(e) && *final(self) == *old(self),
            },
    {
        let source_value = match source {
            LoadByteSource::A => self.registers.a,
            LoadByteSource::B => self.registers.b,
            LoadByteSource::C => self.registers.c,
            LoadByteSource::D => self.registers.d,
            LoadByteSource::E => self.registers.e,
            LoadByteSource::H => self.registers.h,
            LoadByteSource::L => self.registers.l,
            LoadByteSource::D8 => match self.read_next_byte() {
                Ok(b) => b,
                Err(e) => return Err(e),
            },
            LoadByteSource::HLI => match self.bus.read_byte(
                self.registers.get_pair(RegisterPair::HL),
            ) {
                Ok(b) => b,
                Err(e) => return Err(e),
            },
        };
        match target {
            LoadByteTarget::A => self.registers.a = source_value,
            LoadByteTarget::B => self.registers.b = source_value,
            LoadByteTarget::C => self.registers.c = source_value,
            LoadByteTarget::D => self.registers.d = source_value,
            LoadByteTarget::E => self.registers.e = source_value,
            LoadByteTarget::H => self.registers.h = source_value,
            LoadByteTarget::L => self.registers.l = source_value,
            LoadByteTarget::HLI => {
                let hl = self.registers.get_pair(RegisterPair::HL);
                match self.bus.write_byte(hl, source_value) {
                    Ok(()) => {},
                    Err(e) => return Err(e),
                }
            },
        }
        match source {
            LoadByteSource::D8 => Ok(self.pc.wrapping_add(2)),
            _ => Ok(self.pc.wrapping_add(1)),
        }
    }
}

} // verus!
