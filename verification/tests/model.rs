use cpu6502::cpu::CPU;
use cpu6502::instructions::{opcode_for, AddressingMode};

const CARRY: u8 = 0b0000_0001;
const ZERO: u8 = 0b0000_0010;
const OVERFLOW: u8 = 0b0100_0000;
const NEGATIVE: u8 = 0b1000_0000;

// ---------- instruction table ----------

#[test]
fn opcode_table_knows_lengths_and_modes() {
    let lda = opcode_for(0xad).unwrap();
    assert_eq!(lda.code, 0xad);
    assert_eq!(lda.mnemonic, "LDA");
    assert_eq!(lda.bytes, 3);
    assert_eq!(lda.cycles, 4);
    assert_eq!(lda.adressing_mode, AddressingMode::Absolute);

    let ldx = opcode_for(0xb6).unwrap();
    assert_eq!(ldx.adressing_mode, AddressingMode::ZeroPageY);
    assert_eq!(ldx.bytes, 2);

    let brk = opcode_for(0x00).unwrap();
    assert_eq!(brk.bytes, 1);
    assert_eq!(brk.adressing_mode, AddressingMode::NoneAddressing);
}

#[test]
fn opcode_table_rejects_unknown_codes() {
    assert!(opcode_for(0xff).is_none());
    assert!(opcode_for(0x02).is_none());
    assert!(opcode_for(0xea).is_none());
}

// ---------- power-on and memory ----------

#[test]
fn new_cpu_is_all_zero() {
    let cpu = CPU::new();
    assert_eq!(cpu.register_a, 0);
    assert_eq!(cpu.register_x, 0);
    assert_eq!(cpu.register_y, 0);
    assert_eq!(cpu.status, 0);
    assert_eq!(cpu.program_counter, 0);
    assert_eq!(cpu.stack_pointer, 0);
    assert_eq!(cpu.mem_read(0x0000), 0);
    assert_eq!(cpu.mem_read(0x8000), 0);
    assert_eq!(cpu.mem_read(0xfffe), 0);
}

#[test]
fn read_after_write_gives_the_byte_and_keeps_neighbours() {
    let mut cpu = CPU::new();
    cpu.mem_write(0x1234, 0xab);
    cpu.mem_write(0xfffe, 0x7f);
    assert_eq!(cpu.mem_read(0x1234), 0xab);
    assert_eq!(cpu.mem_read(0xfffe), 0x7f);
    assert_eq!(cpu.mem_read(0x1233), 0);
    assert_eq!(cpu.mem_read(0x1235), 0);
}

#[test]
fn words_are_little_endian_and_round_trip() {
    let mut cpu = CPU::new();
    cpu.mem_write_u16(0x10, 0x1234);
    assert_eq!(cpu.mem_read(0x10), 0x34);
    assert_eq!(cpu.mem_read(0x11), 0x12);
    assert_eq!(cpu.mem_read_u16(0x10), 0x1234);

    cpu.mem_write(0x20, 0xcd);
    cpu.mem_write(0x21, 0xab);
    assert_eq!(cpu.mem_read_u16(0x20), 0xabcd);

    cpu.mem_write_u16(0xfffd, 0xbeef);
    assert_eq!(cpu.mem_read_u16(0xfffd), 0xbeef);
}

#[test]
fn load_copies_program_and_sets_reset_vector() {
    let mut cpu = CPU::new();
    cpu.load(vec![0xa9, 0x42, 0x00]);
    assert_eq!(cpu.mem_read(0x8000), 0xa9);
    assert_eq!(cpu.mem_read(0x8001), 0x42);
    assert_eq!(cpu.mem_read(0x8002), 0x00);
    assert_eq!(cpu.mem_read(0xfffc), 0x00);
    assert_eq!(cpu.mem_read(0xfffd), 0x80);
    assert_eq!(cpu.mem_read_u16(0xfffc), 0x8000);
}

#[test]
fn reset_clears_registers_and_jumps_through_vector() {
    let mut cpu = CPU::new();
    cpu.register_a = 1;
    cpu.register_x = 2;
    cpu.register_y = 3;
    cpu.status = 0xff;
    cpu.stack_pointer = 0xfd;
    cpu.mem_write_u16(0xfffc, 0x1234);
    cpu.reset();
    assert_eq!(cpu.register_a, 0);
    assert_eq!(cpu.register_x, 0);
    assert_eq!(cpu.register_y, 0);
    assert_eq!(cpu.status, 0);
    assert_eq!(cpu.program_counter, 0x1234);
    assert_eq!(cpu.stack_pointer, 0xfd);
}

#[test]
fn load_then_reset_starts_at_program_start_even_for_longest_program() {
    let mut cpu = CPU::new();
    let mut program = vec![0xeau8; 0x7fff];
    program[0] = 0x42;
    cpu.load(program);
    assert_eq!(cpu.mem_read(0x8000), 0x42);
    assert_eq!(cpu.mem_read(0xfffb), 0xea);
    assert_eq!(cpu.mem_read(0xfffe), 0xea);
    cpu.reset();
    assert_eq!(cpu.program_counter, 0x8000);
}

// ---------- addressing modes ----------

fn cpu_with_operand_at(pc: u16, bytes: &[u8]) -> CPU {
    let mut cpu = CPU::new();
    cpu.program_counter = pc;
    let mut i: u16 = 0;
    for b in bytes {
        cpu.mem_write(pc + i, *b);
        i += 1;
    }
    cpu
}

#[test]
fn operand_address_immediate_and_zero_page() {
    let mut cpu = cpu_with_operand_at(0x0300, &[0xf0, 0x12]);
    assert_eq!(cpu.get_operand_address(&AddressingMode::Immediate), 0x0300);
    assert_eq!(cpu.get_operand_address(&AddressingMode::ZeroPage), 0x00f0);
    cpu.register_x = 0x20;
    cpu.register_y = 0x05;
    // zero page indexing wraps inside page zero
    assert_eq!(cpu.get_operand_address(&AddressingMode::ZeroPageX), 0x0010);
    assert_eq!(cpu.get_operand_address(&AddressingMode::ZeroPageY), 0x00f5);
}

#[test]
fn operand_address_absolute_modes_wrap_at_64k() {
    let mut cpu = cpu_with_operand_at(0x0300, &[0xfe, 0xff]);
    assert_eq!(cpu.get_operand_address(&AddressingMode::Absolute), 0xfffe);
    cpu.register_x = 3;
    cpu.register_y = 1;
    assert_eq!(cpu.get_operand_address(&AddressingMode::AbsoluteX), 0x0001);
    assert_eq!(cpu.get_operand_address(&AddressingMode::AbsoluteY), 0xffff);
}

#[test]
fn operand_address_indirect_modes() {
    let mut cpu = cpu_with_operand_at(0x0300, &[0x40]);
    cpu.register_x = 0x04;
    cpu.register_y = 0x10;
    // (zp,X): pointer at 0x44/0x45, then Y is added to the target
    cpu.mem_write(0x44, 0x00);
    cpu.mem_write(0x45, 0x20);
    assert_eq!(cpu.get_operand_address(&AddressingMode::IndirectX), 0x2010);
    // (zp),Y: pointer at 0x40/0x41 as it stands
    cpu.mem_write(0x40, 0x34);
    cpu.mem_write(0x41, 0x12);
    assert_eq!(cpu.get_operand_address(&AddressingMode::IndirectY), 0x1234);
}

#[test]
fn operand_address_indirect_x_pointer_wraps_in_page_zero() {
    let mut cpu = cpu_with_operand_at(0x0300, &[0xfe]);
    cpu.register_x = 0x01;
    cpu.mem_write(0xff, 0x78);
    cpu.mem_write(0x00, 0x56);
    assert_eq!(cpu.get_operand_address(&AddressingMode::IndirectX), 0x5678);
}

// ---------- instructions through run ----------

#[test]
fn brk_stops_one_byte_past_itself() {
    let mut cpu = CPU::new();
    cpu.load_and_run(vec![0xa9, 0x05, 0x00]);
    assert_eq!(cpu.program_counter, 0x8003);
}

#[test]
fn run_starts_at_program_counter() {
    let mut cpu = CPU::new();
    cpu.mem_write(0x0600, 0xa2); // LDX #$07
    cpu.mem_write(0x0601, 0x07);
    cpu.mem_write(0x0602, 0xe8); // INX
    cpu.mem_write(0x0603, 0x00); // BRK
    cpu.program_counter = 0x0600;
    cpu.run();
    assert_eq!(cpu.register_x, 0x08);
    assert_eq!(cpu.program_counter, 0x0604);
}

#[test]
fn runs_are_deterministic() {
    let program = vec![0xa9, 0x7f, 0x69, 0x01, 0x0a, 0xaa, 0xe8, 0x00];
    let mut first = CPU::new();
    first.load_and_run(program.clone());
    let mut second = CPU::new();
    second.load_and_run(program);
    assert_eq!(first.register_a, second.register_a);
    assert_eq!(first.register_x, second.register_x);
    assert_eq!(first.status, second.status);
    assert_eq!(first.program_counter, second.program_counter);
}

#[test]
fn adc_carry_in_can_produce_carry_out() {
    let mut cpu = CPU::new();
    // SEC ; LDA #$FF ; ADC #$00 -> 0xFF + 0 + 1 = 0x100
    cpu.load_and_run(vec![0x38, 0xa9, 0xff, 0x69, 0x00, 0x00]);
    assert_eq!(cpu.register_a, 0x00);
    assert!(cpu.status & CARRY != 0);
    assert!(cpu.status & ZERO != 0);
    assert!(cpu.status & OVERFLOW == 0);
}

#[test]
fn adc_clears_stale_overflow() {
    let mut cpu = CPU::new();
    // 0x50 + 0x50 overflows; then 0x01 + 0x01 must clear the flag
    cpu.load_and_run(vec![0xa9, 0x50, 0x69, 0x50, 0xa9, 0x01, 0x69, 0x01, 0x00]);
    assert_eq!(cpu.register_a, 0x02);
    assert!(cpu.status & OVERFLOW == 0);
}

#[test]
fn adc_absolute_x_reads_indexed_memory() {
    let mut cpu = CPU::new();
    cpu.mem_write(0x0205, 0x11);
    // LDX #$05 ; LDA #$01 ; ADC $0200,X
    cpu.load_and_run(vec![0xa2, 0x05, 0xa9, 0x01, 0x7d, 0x00, 0x02, 0x00]);
    assert_eq!(cpu.register_a, 0x12);
}

#[test]
fn asl_absolute_shifts_memory() {
    let mut cpu = CPU::new();
    cpu.mem_write(0x0400, 0x81);
    // ASL $0400
    cpu.load_and_run(vec![0x0e, 0x00, 0x04, 0x00]);
    assert_eq!(cpu.mem_read(0x0400), 0x02);
    assert!(cpu.status & CARRY != 0);
    assert!(cpu.status & NEGATIVE == 0);
    assert_eq!(cpu.register_a, 0);
}

#[test]
fn bcs_branches_only_when_carry_set() {
    let mut cpu = CPU::new();
    // SEC ; BCS +3 ; LDA #$01 (skipped) ; LDA #$02
    cpu.load_and_run(vec![0x38, 0xb0, 0x03, 0xa9, 0x01, 0xa9, 0x02, 0x00]);
    assert_eq!(cpu.register_a, 0x02);

    let mut cpu = CPU::new();
    // BCS +3 not taken ; LDA #$01 ; BRK
    cpu.load_and_run(vec![0xb0, 0x03, 0xa9, 0x01, 0x00]);
    assert_eq!(cpu.register_a, 0x01);
}

#[test]
fn beq_branches_only_when_zero_set() {
    let mut cpu = CPU::new();
    // LDA #$00 ; BEQ +3 ; LDA #$01 (skipped) ; LDX #$02
    cpu.load_and_run(vec![0xa9, 0x00, 0xf0, 0x03, 0xa9, 0x01, 0xa2, 0x02, 0x00]);
    assert_eq!(cpu.register_a, 0x00);
    assert_eq!(cpu.register_x, 0x02);

    let mut cpu = CPU::new();
    // LDA #$05 ; BEQ +3 not taken ; LDA #$01
    cpu.load_and_run(vec![0xa9, 0x05, 0xf0, 0x03, 0xa9, 0x01, 0x00]);
    assert_eq!(cpu.register_a, 0x01);
}

#[test]
fn taken_branch_keeps_flags_and_registers() {
    let mut cpu = CPU::new();
    // LDA #$80 ; BCC +3 ; (skipped LDA #$00) ; BRK
    cpu.load_and_run(vec![0xa9, 0x80, 0x90, 0x03, 0xa9, 0x00, 0x00, 0x00]);
    assert_eq!(cpu.register_a, 0x80);
    assert!(cpu.status & NEGATIVE != 0);
    assert!(cpu.status & ZERO == 0);
}

#[test]
fn ldx_and_ldy_addressing_modes() {
    let mut cpu = CPU::new();
    cpu.mem_write(0x33, 0x99);
    cpu.mem_write(0x0444, 0x00);
    // LDY #$03 ; LDX $30,Y ; LDY $0444
    cpu.load_and_run(vec![0xa0, 0x03, 0xb6, 0x30, 0xac, 0x44, 0x04, 0x00]);
    assert_eq!(cpu.register_x, 0x99);
    assert_eq!(cpu.register_y, 0x00);
    assert!(cpu.status & ZERO != 0);
    assert!(cpu.status & NEGATIVE == 0);
}

#[test]
fn loads_keep_carry_and_overflow() {
    let mut cpu = CPU::new();
    // LDA #$50 ; ADC #$50 (sets V) ; SEC ; LDA #$00 ; LDX #$80 ; LDY #$01 ; TAX ; INX
    cpu.load_and_run(vec![
        0xa9, 0x50, 0x69, 0x50, 0x38, 0xa9, 0x00, 0xa2, 0x80, 0xa0, 0x01, 0xaa, 0xe8, 0x00,
    ]);
    assert!(cpu.status & CARRY != 0);
    assert!(cpu.status & OVERFLOW != 0);
    assert_eq!(cpu.register_x, 0x01);
}

#[test]
fn inx_wraps_to_zero_and_sets_zero_flag() {
    let mut cpu = CPU::new();
    cpu.load_and_run(vec![0xa2, 0xff, 0xe8, 0x00]);
    assert_eq!(cpu.register_x, 0x00);
    assert!(cpu.status & ZERO != 0);
    assert!(cpu.status & NEGATIVE == 0);
}

#[test]
fn sec_sets_only_carry() {
    let mut cpu = CPU::new();
    cpu.load_and_run(vec![0x38, 0x00]);
    assert_eq!(cpu.status, CARRY);
}

#[test]
fn zero_and_negative_flags_follow_each_result() {
    let mut cpu = CPU::new();
    // LDA #$00 (Z) ; LDA #$80 (N, not Z)
    cpu.load_and_run(vec![0xa9, 0x00, 0xa9, 0x80, 0x00]);
    assert!(cpu.status & ZERO == 0);
    assert!(cpu.status & NEGATIVE != 0);
}

#[test]
fn branch_offsets_are_signed() {
    let mut cpu = CPU::new();
    // $8000 LDA #$01 ; $8002 BCC $FC (-4 from its offset byte at $8003) -> $7FFF, a BRK
    cpu.load_and_run(vec![0xa9, 0x01, 0x90, 0xfc, 0x00]);
    assert_eq!(cpu.register_a, 0x01);
    assert_eq!(cpu.program_counter, 0x8000);
}

#[test]
fn backward_branch_makes_a_loop() {
    let mut cpu = CPU::new();
    cpu.load_and_run(vec![
        0xa2, 0xfe, // $8000 LDX #$FE
        0xe8, // $8002 INX
        0xf0, 0x03, // $8003 BEQ +3 -> $8007
        0x90, 0xfc, // $8005 BCC -4 -> $8002
        0x00, // $8007 BRK
    ]);
    assert_eq!(cpu.register_x, 0x00);
    assert_eq!(cpu.program_counter, 0x8008);
}

#[test]
fn register_accessors_read_and_write_one_register() {
    let mut cpu = CPU::new();
    cpu.set_register_a(1);
    cpu.set_register_x(2);
    cpu.set_register_y(3);
    cpu.set_status(0x41);
    cpu.set_program_counter(0x1234);
    cpu.set_stack_pointer(0xfd);
    assert_eq!(cpu.register_a(), 1);
    assert_eq!(cpu.register_x(), 2);
    assert_eq!(cpu.register_y(), 3);
    assert_eq!(cpu.status(), 0x41);
    assert_eq!(cpu.program_counter(), 0x1234);
    assert_eq!(cpu.stack_pointer(), 0xfd);
    assert_eq!(cpu.register_a, 1);
    assert_eq!(cpu.program_counter, 0x1234);
}

#[test]
fn two_accumulator_shifts_take_carry_from_bit_6() {
    let mut cpu = CPU::new();
    // LDA #$C1 ; ASL A ; ASL A -> 0x04, carry from bit 6 (set)
    cpu.load_and_run(vec![0xa9, 0xc1, 0x0a, 0x0a, 0x00]);
    assert_eq!(cpu.register_a, 0x04);
    assert!(cpu.status & CARRY != 0);
    assert!(cpu.status & ZERO == 0);
}
