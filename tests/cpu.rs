use vmachine::assembly::{Assembly, Instruction, Register};
use vmachine::cpu::CPU;
use vmachine::ram::RAM;
use vmachine::ucode::UCode;

const START: usize = 0x1000_0000;

fn machine(program: &[u8]) -> (CPU, RAM) {
    let mut ram = RAM::new(START + 64);
    for (i, b) in program.iter().enumerate() {
        ram.write_byte(START + i, *b).unwrap();
    }
    (CPU::new(), ram)
}

#[test]
fn new_cpu_starts_zeroed() {
    let cpu = CPU::new();
    assert_eq!(cpu.a_register(), 0);
    assert_eq!(cpu.x_register(), 0);
    assert_eq!(cpu.y_register(), 0);
    assert_eq!(cpu.flag_register(), 0);
    assert_eq!(cpu.instruction_step(), 0);
    assert_eq!(cpu.stack_pointer(), 0x04FF_FFFF);
    assert_eq!(cpu.program_counter(), 0x1000_0000);
}

#[test]
fn lda_completes_after_two_passes() {
    let (mut cpu, mut ram) = machine(&[Assembly::LDA, 0x12, 0x34]);
    assert_eq!(cpu.cycle(&mut ram), Ok(false));
    assert_eq!(cpu.a_register(), 0);
    assert_eq!(cpu.instruction_step(), 1);
    assert_eq!(cpu.cycle(&mut ram), Ok(true));
    assert_eq!(cpu.a_register(), 0x1234);
    assert_eq!(cpu.instruction_step(), 0);
    assert_eq!(cpu.program_counter(), 0x1000_0003);
}

#[test]
fn ldx_and_ldy_load_their_registers() {
    let (mut cpu, mut ram) = machine(&[Assembly::LDX, 0x00, 0x07, Assembly::LDY, 0xFF, 0xFE]);
    assert_eq!(cpu.launch(&mut ram, 4), Ok(()));
    assert_eq!(cpu.x_register(), 7);
    assert_eq!(cpu.y_register(), 0xFFFE);
    assert_eq!(cpu.a_register(), 0);
}

#[test]
fn bne_taken_jumps_after_two_passes() {
    let (mut cpu, mut ram) = machine(&[Assembly::BNE, 0x00, 0x00, 0x00, 0x10]);
    assert_eq!(cpu.cycle(&mut ram), Ok(false));
    assert_eq!(cpu.cycle(&mut ram), Ok(true));
    assert_eq!(cpu.program_counter(), 0x0000_0010);
    assert_eq!(cpu.instruction_step(), 0);
}

#[test]
fn bne_not_taken_completes_in_one_pass_and_keeps_target_bytes() {
    // CAX sets the zero flag: A and X are both 0.
    let (mut cpu, mut ram) = machine(&[Assembly::CAX, Assembly::BNE, 0x00, 0x00, 0x00, 0x10]);
    assert_eq!(cpu.cycle(&mut ram), Ok(true));
    assert_eq!(cpu.flag_register() & 0b10, 0b10);
    let before = cpu.program_counter();
    assert_eq!(cpu.cycle(&mut ram), Ok(true));
    assert_eq!(cpu.program_counter(), before + 1);
    assert_eq!(cpu.instruction_step(), 0);
}

#[test]
fn beq_taken_when_zero_flag_set() {
    let (mut cpu, mut ram) = machine(&[Assembly::CAY, Assembly::BEQ, 0x00, 0x00, 0x00, 0x20]);
    assert_eq!(cpu.launch(&mut ram, 3), Ok(()));
    assert_eq!(cpu.program_counter(), 0x20);
}

#[test]
fn beq_not_taken_when_zero_flag_clear() {
    let (mut cpu, mut ram) = machine(&[Assembly::BEQ, 0x00, 0x00, 0x00, 0x20]);
    assert_eq!(cpu.cycle(&mut ram), Ok(true));
    assert_eq!(cpu.program_counter(), 0x1000_0001);
}

#[test]
fn jmp_sets_program_counter() {
    let (mut cpu, mut ram) = machine(&[Assembly::JMP, 0x10, 0x00, 0x00, 0x08]);
    assert_eq!(cpu.cycle(&mut ram), Ok(false));
    assert_eq!(cpu.program_counter(), 0x1000_0005);
    assert_eq!(cpu.cycle(&mut ram), Ok(true));
    assert_eq!(cpu.program_counter(), 0x1000_0008);
}

#[test]
fn dec_at_minimum_wraps_and_sets_overflow() {
    let (mut cpu, mut ram) = machine(&[Assembly::DEC]);
    assert_eq!(cpu.cycle(&mut ram), Ok(true));
    assert_eq!(cpu.a_register(), 0xFFFF);
    assert_eq!(cpu.flag_register() & 0x40, 0x40);
    assert_eq!(cpu.flag_register() & 0x80, 0x80);
}

#[test]
fn dex_and_dey_wrap_too() {
    let (mut cpu, mut ram) = machine(&[Assembly::DEX, Assembly::DEY]);
    assert_eq!(cpu.launch(&mut ram, 2), Ok(()));
    assert_eq!(cpu.x_register(), 0xFFFF);
    assert_eq!(cpu.y_register(), 0xFFFF);
    assert_eq!(cpu.flag_register(), 0xC0);
}

#[test]
fn dec_above_minimum_leaves_flags() {
    let (mut cpu, mut ram) = machine(&[Assembly::LDA, 0x00, 0x05, Assembly::DEC]);
    assert_eq!(cpu.launch(&mut ram, 3), Ok(()));
    assert_eq!(cpu.a_register(), 4);
    assert_eq!(cpu.flag_register(), 0);
}

#[test]
fn inc_at_maximum_wraps_and_sets_overflow() {
    let (mut cpu, mut ram) = machine(&[Assembly::LDX, 0xFF, 0xFF, Assembly::INX, Assembly::INY]);
    assert_eq!(cpu.launch(&mut ram, 4), Ok(()));
    assert_eq!(cpu.x_register(), 0);
    assert_eq!(cpu.y_register(), 1);
    assert_eq!(cpu.flag_register(), 0x40);
}

#[test]
fn inc_into_top_half_sets_negative() {
    let (mut cpu, mut ram) = machine(&[Assembly::LDA, 0x7F, 0xFF, Assembly::INC]);
    assert_eq!(cpu.launch(&mut ram, 3), Ok(()));
    assert_eq!(cpu.a_register(), 0x8000);
    assert_eq!(cpu.flag_register(), 0x80);
}

#[test]
fn transfers_copy_registers() {
    let (mut cpu, mut ram) = machine(&[
        Assembly::LDA, 0x00, 0x11, Assembly::TAX, Assembly::LDA, 0x00, 0x22, Assembly::TAY,
        Assembly::TXA,
    ]);
    assert_eq!(cpu.launch(&mut ram, 7), Ok(()));
    assert_eq!(cpu.x_register(), 0x11);
    assert_eq!(cpu.y_register(), 0x22);
    assert_eq!(cpu.a_register(), 0x11);
    let (mut cpu, mut ram) = machine(&[Assembly::LDY, 0x00, 0x33, Assembly::TYX, Assembly::TYA, Assembly::LDY, 0, 1, Assembly::TXY]);
    assert_eq!(cpu.launch(&mut ram, 7), Ok(()));
    assert_eq!(cpu.x_register(), 0x33);
    assert_eq!(cpu.a_register(), 0x33);
    assert_eq!(cpu.y_register(), 0x33);
}

#[test]
fn compare_sets_and_clears_zero_flag() {
    let (mut cpu, mut ram) = machine(&[
        Assembly::LDA, 0x00, 0x05, Assembly::CMP, 0x00, 0x05, Assembly::CMP, 0x00, 0x06,
    ]);
    assert_eq!(cpu.launch(&mut ram, 4), Ok(()));
    assert_eq!(cpu.flag_register(), 0b10);
    assert_eq!(cpu.launch(&mut ram, 2), Ok(()));
    assert_eq!(cpu.flag_register(), 0);
}

#[test]
fn register_compares_set_zero_flag() {
    let (mut cpu, mut ram) = machine(&[Assembly::LDX, 0x00, 0x01, Assembly::CXY, Assembly::CAY]);
    assert_eq!(cpu.launch(&mut ram, 3), Ok(()));
    assert_eq!(cpu.flag_register(), 0);
    assert_eq!(cpu.cycle(&mut ram), Ok(true));
    assert_eq!(cpu.flag_register(), 0b10);
}

#[test]
fn store_writes_register_big_endian() {
    let (mut cpu, mut ram) = machine(&[
        Assembly::LDA, 0xBE, 0xEF, Assembly::STA, 0x00, 0x00, 0x00, 0x20,
    ]);
    assert_eq!(cpu.launch(&mut ram, 4), Ok(()));
    assert_eq!(ram.fetch_byte(0x20), Ok(0xBE));
    assert_eq!(ram.fetch_byte(0x21), Ok(0xEF));
    assert_eq!(cpu.instruction_step(), 0);
}

#[test]
fn store_out_of_range_faults_and_writes_nothing() {
    let (mut cpu, mut ram) = machine(&[Assembly::STX, 0xFF, 0xFF, 0xFF, 0xF0]);
    assert_eq!(cpu.cycle(&mut ram), Ok(false));
    assert_eq!(cpu.cycle(&mut ram), Err(UCode::InvalidMemoryWrite));
    assert_eq!(cpu.instruction_step(), 1);
}

#[test]
fn operand_fetch_past_memory_faults() {
    let mut ram = RAM::new(START + 2);
    ram.write_byte(START, Assembly::LDA).unwrap();
    let mut cpu = CPU::new();
    assert_eq!(cpu.cycle(&mut ram), Err(UCode::InvalidMemoryRead));
}

#[test]
fn opcode_fetch_past_memory_faults() {
    let mut ram = RAM::new(16);
    let mut cpu = CPU::new();
    assert_eq!(cpu.launch(&mut ram, 3), Err(UCode::InvalidMemoryRead));
    assert_eq!(cpu.program_counter(), 0x1000_0000);
}

#[test]
fn held_latch_is_a_fault() {
    let (mut cpu, mut ram) = machine(&[Assembly::HLT]);
    ram.lock().unwrap();
    assert_eq!(cpu.cycle(&mut ram), Err(UCode::MemoryAlreadyLocked));
    assert!(ram.is_locked());
}

#[test]
fn push_writes_at_stack_pointer_then_moves_down() {
    let (mut cpu, mut ram) = machine(&[Assembly::LDA, 0x12, 0x34, Assembly::PSA]);
    assert_eq!(cpu.launch(&mut ram, 3), Ok(()));
    assert_eq!(ram.fetch_word(0x04FF_FFFF), Ok(0x1234));
    assert_eq!(cpu.stack_pointer(), 0x04FF_FFFD);
}

#[test]
fn pull_reads_at_stack_pointer_then_moves_up() {
    let (mut cpu, mut ram) = machine(&[
        Assembly::LDA, 0x12, 0x34, Assembly::PSA, Assembly::PLX, Assembly::PLY,
    ]);
    assert_eq!(cpu.launch(&mut ram, 5), Ok(()));
    assert_eq!(cpu.x_register(), 0);
    assert_eq!(cpu.y_register(), 0x1234);
    assert_eq!(cpu.stack_pointer(), 0x0500_0001);
}

#[test]
fn push_and_pull_program_counter() {
    let (mut cpu, mut ram) = machine(&[Assembly::PSP, Assembly::PLP]);
    assert_eq!(cpu.cycle(&mut ram), Ok(true));
    assert_eq!(ram.fetch_double_word(0x04FF_FFFF), Ok(0x1000_0001));
    assert_eq!(cpu.stack_pointer(), 0x04FF_FFFB);
    assert_eq!(cpu.cycle(&mut ram), Ok(true));
    assert_eq!(cpu.stack_pointer(), 0x04FF_FFFF);
    assert_eq!(cpu.program_counter(), 0);
}

#[test]
fn end_to_end_load_then_idle() {
    let (mut cpu, mut ram) = machine(&[Assembly::LDA, 0x00, 0x2A, Assembly::HLT]);
    assert_eq!(cpu.launch(&mut ram, 10), Ok(()));
    assert_eq!(cpu.a_register(), 42);
    assert_eq!(cpu.instruction_step(), 0);
    assert_eq!(cpu.flag_register(), 0);
}

#[test]
fn resolve_error_gives_fault_code() {
    assert_eq!(CPU::resolve_error(UCode::InvalidMemoryRead), 0xd1);
    assert_eq!(CPU::resolve_error(UCode::PointerUnderflow), 0xa2);
}

#[test]
fn decode_opcodes() {
    assert_eq!(Instruction::decode(Assembly::HLT), Instruction::Idle);
    assert_eq!(Instruction::decode(Assembly::STK), Instruction::Idle);
    assert_eq!(Instruction::decode(0xFF), Instruction::Idle);
    assert_eq!(Instruction::decode(0x40), Instruction::Load(Register::A));
    assert_eq!(Instruction::decode(0x55), Instruction::Transfer(Register::Y, Register::X));
    assert_eq!(Instruction::decode(0x62), Instruction::Store(Register::Y));
    assert_eq!(Instruction::decode(0x73), Instruction::PushCounter);
    assert_eq!(Instruction::decode(0x77), Instruction::Pull(Register::X));
    assert_eq!(Instruction::decode(0xa4), Instruction::CompareRegisters(Register::A, Register::Y));
    assert_eq!(Instruction::decode(0xab), Instruction::BranchIfNotZero);
    assert_eq!(Instruction::decode(0xbc), Instruction::Increment(Register::Y));
}

#[test]
fn unknown_opcode_is_idle() {
    let (mut cpu, mut ram) = machine(&[0x99]);
    assert_eq!(cpu.cycle(&mut ram), Ok(true));
    assert_eq!(cpu.a_register(), 0);
    assert_eq!(cpu.program_counter(), 0x1000_0001);
}
