use gameboy::cpu::flags_register::FlagsRegister;
use gameboy::cpu::instruction::{
    ADDHLTarget, ArithmeticTarget, IncDecTarget, Instruction, JumpTest, LoadByteSource,
    LoadByteTarget, LoadType, StackTarget,
};
use gameboy::cpu::memory_bus::{BusError, MemoryBus};
use gameboy::cpu::registers::RegisterPair;
use gameboy::cpu::CPU;

/// A machine whose program starts at the bottom of video memory and whose stack
/// grows down from its top.
fn machine(program: &[u8]) -> CPU {
    let mut cpu = CPU::new();
    for (i, b) in program.iter().enumerate() {
        cpu.bus.write_byte(0x8000 + i as u16, *b).unwrap();
    }
    cpu.pc = 0x8000;
    cpu.sp = 0xA000;
    cpu
}

const TARGETS: [ArithmeticTarget; 7] = [
    ArithmeticTarget::A,
    ArithmeticTarget::B,
    ArithmeticTarget::C,
    ArithmeticTarget::D,
    ArithmeticTarget::E,
    ArithmeticTarget::H,
    ArithmeticTarget::L,
];

const INC_DEC_REGISTERS: [(IncDecTarget, ArithmeticTarget); 7] = [
    (IncDecTarget::A, ArithmeticTarget::A),
    (IncDecTarget::B, ArithmeticTarget::B),
    (IncDecTarget::C, ArithmeticTarget::C),
    (IncDecTarget::D, ArithmeticTarget::D),
    (IncDecTarget::E, ArithmeticTarget::E),
    (IncDecTarget::H, ArithmeticTarget::H),
    (IncDecTarget::L, ArithmeticTarget::L),
];

#[test]
fn add_half_carry_every_operand_pair() {
    let mut cpu = machine(&[]);
    for a in 0u16..=255 {
        for b in 0u16..=255 {
            cpu.registers.a = a as u8;
            let r = cpu.add(b as u8);
            assert_eq!(r as u16, (a + b) % 256);
            assert_eq!(cpu.registers.f.half_carry, (a & 0xF) + (b & 0xF) > 0xF);
            assert_eq!(cpu.registers.f.carry, a + b > 0xFF);
            assert_eq!(cpu.registers.f.zero, (a + b) % 256 == 0);
            assert!(!cpu.registers.f.subtract);
        }
    }
}

#[test]
fn add_instruction_writes_a_and_advances() {
    let mut cpu = machine(&[]);
    cpu.registers.a = 0x3A;
    cpu.registers.c = 0xC6;
    assert_eq!(cpu.execute(Instruction::ADD(ArithmeticTarget::C)), Ok(0x8001));
    assert_eq!(cpu.registers.a, 0x00);
    assert!(cpu.registers.f.zero && cpu.registers.f.half_carry && cpu.registers.f.carry);
    assert!(!cpu.registers.f.subtract);
}

#[test]
fn add_hl_overflow_keeps_zero_flag() {
    for zero in [false, true] {
        let mut cpu = machine(&[]);
        cpu.registers.set_pair(RegisterPair::HL, 0xFFFF);
        cpu.registers.set_pair(RegisterPair::BC, 0x0001);
        cpu.registers.f.zero = zero;
        cpu.registers.f.subtract = true;
        assert_eq!(cpu.execute(Instruction::ADDHL(ADDHLTarget::BC)), Ok(0x8001));
        assert_eq!(cpu.registers.get_pair(RegisterPair::HL), 0x0000);
        assert!(cpu.registers.f.carry);
        assert!(cpu.registers.f.half_carry);
        assert!(!cpu.registers.f.subtract);
        assert_eq!(cpu.registers.f.zero, zero);
    }
}

#[test]
fn add_hl_half_carry_out_of_bit_eleven() {
    let mut cpu = machine(&[]);
    cpu.registers.set_pair(RegisterPair::HL, 0x0800);
    cpu.sp = 0x0800;
    assert_eq!(cpu.add_hl(0x0800), 0x1000);
    assert!(!cpu.registers.f.half_carry);
    cpu.registers.set_pair(RegisterPair::HL, 0x07FF);
    assert_eq!(cpu.add_hl(0x0001), 0x0800);
    assert!(cpu.registers.f.half_carry && !cpu.registers.f.carry);
}

#[test]
fn push_then_pop_round_trip() {
    for v in [0x0000u16, 0xFFFF, 0x1234, 0x8001, 0x00FF, 0xFF00] {
        let mut cpu = machine(&[]);
        cpu.push(v).unwrap();
        assert_eq!(cpu.sp, 0x9FFE);
        assert_eq!(cpu.bus.read_byte(0x9FFF), Ok((v >> 8) as u8));
        assert_eq!(cpu.bus.read_byte(0x9FFE), Ok((v & 0xFF) as u8));
        assert_eq!(cpu.pop(), Ok(v));
        assert_eq!(cpu.sp, 0xA000);
    }
}

#[test]
fn push_pop_instructions_move_pairs() {
    let mut cpu = machine(&[]);
    cpu.registers.set_pair(RegisterPair::DE, 0xBEEF);
    assert_eq!(cpu.execute(Instruction::PUSH(StackTarget::DE)), Ok(0x8001));
    assert_eq!(cpu.execute(Instruction::POP(StackTarget::HL)), Ok(0x8001));
    assert_eq!(cpu.registers.get_pair(RegisterPair::HL), 0xBEEF);
    assert_eq!(cpu.sp, 0xA000);
}

#[test]
fn push_to_unmapped_stack_faults_and_changes_nothing() {
    let mut cpu = machine(&[]);
    cpu.sp = 0x8001;
    assert_eq!(cpu.push(0x1234), Err(BusError::UnmappedAddress(0x7FFF)));
    assert_eq!(cpu.sp, 0x8001);
    assert_eq!(cpu.bus.read_byte(0x8000), Ok(0));
    cpu.sp = 0x0000;
    assert_eq!(cpu.push(0x1234), Err(BusError::UnmappedAddress(0xFFFF)));
    assert_eq!(cpu.sp, 0x0000);
}

#[test]
fn inc_then_dec_restores_every_register_value() {
    for (t, r) in INC_DEC_REGISTERS {
        for v in 0u8..=255 {
            let mut cpu = machine(&[]);
            cpu.registers.set(r, v);
            cpu.execute(Instruction::INC(t)).unwrap();
            assert_eq!(cpu.registers.get(r), v.wrapping_add(1));
            cpu.execute(Instruction::DEC(t)).unwrap();
            assert_eq!(cpu.registers.get(r), v);
            cpu.execute(Instruction::DEC(t)).unwrap();
            assert_eq!(cpu.registers.get(r), v.wrapping_sub(1));
            cpu.execute(Instruction::INC(t)).unwrap();
            assert_eq!(cpu.registers.get(r), v);
        }
    }
}

#[test]
fn inc_dec_pairs_and_stack_pointer_wrap() {
    let mut cpu = machine(&[]);
    cpu.registers.set_pair(RegisterPair::BC, 0xFFFF);
    cpu.registers.f = FlagsRegister { zero: false, subtract: true, half_carry: false, carry: true };
    let flags = cpu.registers.f;
    cpu.execute(Instruction::INC(IncDecTarget::BC)).unwrap();
    assert_eq!(cpu.registers.get_pair(RegisterPair::BC), 0x0000);
    cpu.execute(Instruction::DEC(IncDecTarget::BC)).unwrap();
    assert_eq!(cpu.registers.get_pair(RegisterPair::BC), 0xFFFF);
    cpu.registers.set_pair(RegisterPair::HL, 0x0000);
    cpu.execute(Instruction::DEC(IncDecTarget::HL)).unwrap();
    assert_eq!(cpu.registers.get_pair(RegisterPair::HL), 0xFFFF);
    assert_eq!(cpu.registers.f, flags);
    cpu.sp = 0x0000;
    cpu.execute(Instruction::DEC(IncDecTarget::SP)).unwrap();
    assert_eq!(cpu.sp, 0xFFFF);
    cpu.execute(Instruction::INC(IncDecTarget::SP)).unwrap();
    assert_eq!(cpu.sp, 0x0000);
    assert_eq!(cpu.registers.f, flags);
}

#[test]
fn inc_dec_register_flags() {
    let mut cpu = machine(&[]);
    cpu.registers.f.carry = true;
    cpu.registers.a = 0xFF;
    assert_eq!(cpu.execute(Instruction::INC(IncDecTarget::A)), Ok(0x8001));
    assert_eq!(cpu.registers.a, 0x00);
    assert!(cpu.registers.f.zero && cpu.registers.f.half_carry && !cpu.registers.f.subtract);
    assert!(cpu.registers.f.carry);
    cpu.registers.b = 0x10;
    cpu.execute(Instruction::DEC(IncDecTarget::B)).unwrap();
    assert_eq!(cpu.registers.b, 0x0F);
    assert!(!cpu.registers.f.zero && cpu.registers.f.half_carry && cpu.registers.f.subtract);
    assert!(cpu.registers.f.carry);
    cpu.registers.c = 0x01;
    cpu.execute(Instruction::DEC(IncDecTarget::C)).unwrap();
    assert!(cpu.registers.f.zero && !cpu.registers.f.half_carry);
}

#[test]
fn call_pushes_return_address_and_jumps() {
    // CALL 0x9000 at 0x8100.
    let mut cpu = machine(&[]);
    cpu.bus.write_byte(0x8100, 0xCD).unwrap();
    cpu.bus.write_byte(0x8101, 0x00).unwrap();
    cpu.bus.write_byte(0x8102, 0x90).unwrap();
    cpu.pc = 0x8100;
    assert_eq!(cpu.step(), Ok(()));
    assert_eq!(cpu.pc, 0x9000);
    assert_eq!(cpu.sp, 0x9FFE);
    assert_eq!(cpu.pop(), Ok(0x8103));
}

#[test]
fn call_at_unmapped_address_faults() {
    let mut cpu = machine(&[]);
    cpu.pc = 0x0100;
    assert_eq!(cpu.step(), Err(BusError::UnmappedAddress(0x0100)));
    assert_eq!(cpu.execute(Instruction::CALL(JumpTest::Always)), Err(BusError::UnmappedAddress(0x0101)));
    assert_eq!(cpu.pc, 0x0100);
    assert_eq!(cpu.sp, 0xA000);
}

#[test]
fn call_not_taken_skips_three_bytes() {
    let mut cpu = machine(&[0xC4, 0x00, 0x90]);
    cpu.registers.f.zero = true;
    assert_eq!(cpu.step(), Ok(()));
    assert_eq!(cpu.pc, 0x8003);
    assert_eq!(cpu.sp, 0xA000);
}

#[test]
fn return_taken_and_not_taken() {
    let mut cpu = machine(&[0xC9]);
    cpu.push(0x8123).unwrap();
    assert_eq!(cpu.step(), Ok(()));
    assert_eq!(cpu.pc, 0x8123);
    assert_eq!(cpu.sp, 0xA000);
    let mut cpu = machine(&[0xD8]);
    cpu.registers.f.carry = false;
    assert_eq!(cpu.step(), Ok(()));
    assert_eq!(cpu.pc, 0x8001);
}

#[test]
fn jump_taken_and_not_taken() {
    let mut cpu = machine(&[0xC3, 0x34, 0x92]);
    assert_eq!(cpu.step(), Ok(()));
    assert_eq!(cpu.pc, 0x9234);
    let mut cpu = machine(&[0xCA, 0x34, 0x92]);
    assert_eq!(cpu.step(), Ok(()));
    assert_eq!(cpu.pc, 0x8003);
    assert!(cpu.should_jump(JumpTest::NotZero));
    assert!(!cpu.should_jump(JumpTest::Carry));
    assert_eq!(cpu.jump(false), Ok(0x8006));
}

#[test]
fn read_next_byte_and_word() {
    let cpu = machine(&[0x00, 0xCD, 0xAB]);
    assert_eq!(cpu.read_next_byte(), Ok(0xCD));
    let mut cpu = cpu;
    assert_eq!(cpu.read_next_word(), Ok(0xABCD));
}

#[test]
fn halt_freezes_machine_for_later_steps() {
    let mut cpu = machine(&[0x3C, 0x3C, 0x3C]);
    cpu.registers.a = 0x42;
    assert_eq!(cpu.execute(Instruction::HALT), Ok(0x8000));
    assert!(cpu.is_halted);
    let regs = cpu.registers;
    for _ in 0..3 {
        assert_eq!(cpu.step(), Ok(()));
        assert_eq!(cpu.pc, 0x8000);
        assert_eq!(cpu.registers, regs);
    }
    assert_eq!(cpu.execute(Instruction::INC(IncDecTarget::A)), Ok(0x8000));
    assert_eq!(cpu.registers.a, 0x42);
}

#[test]
fn halt_opcode_through_step() {
    let mut cpu = machine(&[0x76, 0x3C]);
    assert_eq!(cpu.step(), Ok(()));
    assert!(cpu.is_halted);
    assert_eq!(cpu.pc, 0x8000);
    cpu.step().unwrap();
    cpu.step().unwrap();
    cpu.step().unwrap();
    assert_eq!(cpu.pc, 0x8000);
    assert_eq!(cpu.registers.a, 0);
}

#[test]
fn unknown_opcode_leaves_pc() {
    let mut cpu = machine(&[0xD3]);
    assert_eq!(cpu.step(), Ok(()));
    assert_eq!(cpu.pc, 0x8000);
}

#[test]
fn prefixed_opcode_reads_following_byte() {
    let mut cpu = machine(&[0xCB, 0x11]);
    assert_eq!(cpu.step(), Ok(()));
    assert_eq!(cpu.pc, 0x8000);
    let mut cpu = machine(&[0xCB]);
    cpu.pc = 0x9FFF;
    cpu.bus.write_byte(0x9FFF, 0xCB).unwrap();
    assert_eq!(cpu.step(), Err(BusError::UnmappedAddress(0xA000)));
}

#[test]
fn step_runs_a_small_program() {
    // LD B, 0x05; INC B; ADD B; NOP
    let mut cpu = machine(&[0x06, 0x05, 0x04, 0x80, 0x00]);
    cpu.registers.a = 0x0B;
    for _ in 0..4 {
        cpu.step().unwrap();
    }
    assert_eq!(cpu.registers.b, 0x06);
    assert_eq!(cpu.registers.a, 0x11);
    assert!(cpu.registers.f.half_carry);
    assert_eq!(cpu.pc, 0x8005);
}

#[test]
fn loads_through_memory_at_hl() {
    let mut cpu = machine(&[]);
    cpu.registers.set_pair(RegisterPair::HL, 0x9000);
    cpu.registers.a = 0x77;
    let store = Instruction::LD(LoadType::Byte(LoadByteTarget::HLI, LoadByteSource::A));
    assert_eq!(cpu.execute(store), Ok(0x8001));
    assert_eq!(cpu.bus.read_byte(0x9000), Ok(0x77));
    cpu.registers.a = 0;
    let load = Instruction::LD(LoadType::Byte(LoadByteTarget::A, LoadByteSource::HLI));
    assert_eq!(cpu.execute(load), Ok(0x8001));
    assert_eq!(cpu.registers.a, 0x77);
    let copy = Instruction::LD(LoadType::Byte(LoadByteTarget::D, LoadByteSource::A));
    assert_eq!(cpu.execute(copy), Ok(0x8001));
    assert_eq!(cpu.registers.d, 0x77);
    cpu.registers.set_pair(RegisterPair::HL, 0x1000);
    assert_eq!(cpu.execute(store), Err(BusError::UnmappedAddress(0x1000)));
}

#[test]
fn literal_load_advances_two() {
    let mut cpu = machine(&[0x36, 0x99]);
    cpu.registers.set_pair(RegisterPair::HL, 0x8800);
    assert_eq!(cpu.step(), Ok(()));
    assert_eq!(cpu.pc, 0x8002);
    assert_eq!(cpu.bus.read_byte(0x8800), Ok(0x99));
}

#[test]
fn other_families_are_inert() {
    let mut cpu = machine(&[]);
    cpu.registers.a = 0x12;
    cpu.registers.b = 0x34;
    let regs = cpu.registers;
    assert_eq!(cpu.execute(Instruction::SUB(ArithmeticTarget::B)), Ok(0x8000));
    assert_eq!(cpu.execute(Instruction::CCF), Ok(0x8000));
    assert_eq!(cpu.registers, regs);
    assert_eq!(cpu.execute(Instruction::NOP), Ok(0x8001));
}

#[test]
fn registers_by_operand() {
    let mut cpu = machine(&[]);
    for (i, t) in TARGETS.iter().enumerate() {
        cpu.registers.set(*t, i as u8 + 1);
    }
    assert_eq!(
        (cpu.registers.a, cpu.registers.b, cpu.registers.c, cpu.registers.d),
        (1, 2, 3, 4)
    );
    assert_eq!((cpu.registers.e, cpu.registers.h, cpu.registers.l), (5, 6, 7));
}

#[test]
fn bus_maps_video_memory_only() {
    let mut bus = MemoryBus::new();
    assert_eq!(bus.write_byte(0x8000, 0x11), Ok(()));
    assert_eq!(bus.write_byte(0x9FFF, 0x22), Ok(()));
    assert_eq!(bus.read_byte(0x8000), Ok(0x11));
    assert_eq!(bus.read_byte(0x9FFF), Ok(0x22));
    assert_eq!(bus.gpu.read_vram(0x1FFF), 0x22);
    assert_eq!(bus.read_byte(0x7FFF), Err(BusError::UnmappedAddress(0x7FFF)));
    assert_eq!(bus.read_byte(0xA000), Err(BusError::UnmappedAddress(0xA000)));
    assert_eq!(bus.write_byte(0x0000, 0x33), Err(BusError::UnmappedAddress(0x0000)));
    assert!(MemoryBus::is_mapped(0x8000) && !MemoryBus::is_mapped(0xFFFF));
}
