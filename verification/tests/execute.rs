use mos6502::execute::{Execute, Fault};
use mos6502::memory::{BlockMemory, Memory};
use mos6502::registers::Flag;
use mos6502::system::{System, INTERRUPT_VECTOR, RESET_VECTOR};

fn ram_system() -> System {
    System::new(Memory::Block(BlockMemory::new(vec![0u8; 0x10000], true)))
}

/// A machine whose program counter sits right after the given opcode, as
/// the driver leaves it when it hands the opcode to the dispatcher.
fn at(pc_after_opcode: u16) -> System {
    let mut s = ram_system();
    s.registers.program_counter = pc_after_opcode;
    s
}

#[test]
fn lda_immediate_sets_accumulator_and_flags() {
    let mut s = at(0x0201);
    s.write(0x0201, 0x00);
    assert!(s.execute(0xa9).is_ok());
    assert_eq!(s.registers.accumulator, 0x00);
    assert!(s.registers.status_read(Flag::Zero));
    assert_eq!(s.registers.program_counter, 0x0202);
}

#[test]
fn lda_zero_page_reads_through_bus() {
    let mut s = at(0x0201);
    s.write(0x0201, 0x42);
    s.write(0x0042, 0x80);
    assert!(s.execute(0xa5).is_ok());
    assert_eq!(s.registers.accumulator, 0x80);
    assert!(s.registers.status_read(Flag::Negative));
}

#[test]
fn lda_zero_page_x_wraps_within_zero_page() {
    // Base 0xFF with index 0x02 resolves to zero-page address 0x01: the
    // sum wraps within the zero page and does not carry into page 1.
    let mut s = at(0x0201);
    s.write(0x0201, 0xff);
    s.write(0x0001, 0x3c);
    s.write(0x0101, 0x99);
    s.registers.x_index = 0x02;
    assert!(s.execute(0xb5).is_ok());
    assert_eq!(s.registers.accumulator, 0x3c);
}

#[test]
fn lda_absolute_x_wraps_at_top_of_space() {
    let mut s = at(0x0201);
    s.write(0x0201, 0xff);
    s.write(0x0202, 0xff);
    s.write(0x0001, 0x5a);
    s.registers.x_index = 0x02;
    assert!(s.execute(0xbd).is_ok());
    assert_eq!(s.registers.accumulator, 0x5a);
}

#[test]
fn lda_indirect_x_dereferences_zero_page_pointer() {
    let mut s = at(0x0201);
    s.write(0x0201, 0x20);
    s.registers.x_index = 0x04;
    s.write(0x0024, 0x00);
    s.write(0x0025, 0x30);
    s.write(0x3000, 0x77);
    assert!(s.execute(0xa1).is_ok());
    assert_eq!(s.registers.accumulator, 0x77);
}

#[test]
fn lda_indirect_y_adds_index_after_dereference() {
    let mut s = at(0x0201);
    s.write(0x0201, 0x40);
    s.write(0x0040, 0x00);
    s.write(0x0041, 0x30);
    s.registers.y_index = 0x05;
    s.write(0x3005, 0x66);
    assert!(s.execute(0xb1).is_ok());
    assert_eq!(s.registers.accumulator, 0x66);
}

#[test]
fn ldx_ldy_set_index_registers() {
    let mut s = at(0x0201);
    s.write(0x0201, 0x10);
    assert!(s.execute(0xa2).is_ok());
    assert_eq!(s.registers.x_index, 0x10);
    s.write(0x0202, 0x20);
    assert!(s.execute(0xa0).is_ok());
    assert_eq!(s.registers.y_index, 0x20);
}

#[test]
fn sta_absolute_writes_accumulator() {
    let mut s = at(0x0201);
    s.registers.accumulator = 0xbe;
    s.write(0x0201, 0x00);
    s.write(0x0202, 0x60);
    assert!(s.execute(0x8d).is_ok());
    assert_eq!(s.read(0x6000), 0xbe);
    assert_eq!(s.registers.program_counter, 0x0203);
}

#[test]
fn stx_sty_zero_page() {
    let mut s = at(0x0201);
    s.registers.x_index = 0x0a;
    s.registers.y_index = 0x0b;
    s.write(0x0201, 0x50);
    assert!(s.execute(0x86).is_ok());
    assert_eq!(s.read(0x0050), 0x0a);
    s.write(0x0202, 0x51);
    assert!(s.execute(0x84).is_ok());
    assert_eq!(s.read(0x0051), 0x0b);
}

#[test]
fn transfers_move_bytes_and_set_flags() {
    let mut s = ram_system();
    s.registers.accumulator = 0x80;
    assert!(s.execute(0xaa).is_ok());  // TAX
    assert_eq!(s.registers.x_index, 0x80);
    assert!(s.registers.status_read(Flag::Negative));
    assert!(s.execute(0xa8).is_ok());  // TAY
    assert_eq!(s.registers.y_index, 0x80);
    s.registers.x_index = 0x00;
    assert!(s.execute(0x8a).is_ok());  // TXA
    assert_eq!(s.registers.accumulator, 0x00);
    assert!(s.registers.status_read(Flag::Zero));
    s.registers.y_index = 0x42;
    assert!(s.execute(0x98).is_ok());  // TYA
    assert_eq!(s.registers.accumulator, 0x42);
}

#[test]
fn txs_moves_stack_pointer_without_flags() {
    let mut s = ram_system();
    s.registers.x_index = 0x00;
    let status = s.registers.status_register;
    assert!(s.execute(0x9a).is_ok());  // TXS
    assert_eq!(s.registers.stack_pointer, 0x00);
    assert_eq!(s.registers.status_register, status);
}

#[test]
fn tsx_moves_stack_pointer_and_sets_flags() {
    let mut s = ram_system();
    s.registers.stack_pointer = 0x00;
    assert!(s.execute(0xba).is_ok());  // TSX
    assert_eq!(s.registers.x_index, 0x00);
    assert!(s.registers.status_read(Flag::Zero));
}

#[test]
fn stack_instructions_round_trip() {
    let mut s = ram_system();
    s.registers.accumulator = 0x3d;
    assert!(s.execute(0x48).is_ok());  // PHA
    s.registers.accumulator = 0x00;
    assert!(s.execute(0x68).is_ok());  // PLA
    assert_eq!(s.registers.accumulator, 0x3d);
    s.registers.status_register = 0xb1;
    assert!(s.execute(0x08).is_ok());  // PHP
    s.registers.status_register = 0x20;
    assert!(s.execute(0x28).is_ok());  // PLP
    assert_eq!(s.registers.status_register, 0xb1);
}

#[test]
fn asl_accumulator_shifts_into_carry() {
    let mut s = ram_system();
    s.registers.accumulator = 0x81;
    assert!(s.execute(0x0a).is_ok());
    assert_eq!(s.registers.accumulator, 0x02);
    assert!(s.registers.status_read(Flag::Carry));
}

#[test]
fn asl_memory_read_modify_write() {
    let mut s = at(0x0201);
    s.write(0x0201, 0x40);
    s.write(0x0040, 0x41);
    assert!(s.execute(0x06).is_ok());
    assert_eq!(s.read(0x0040), 0x82);
    assert!(!s.registers.status_read(Flag::Carry));
    assert!(s.registers.status_read(Flag::Negative));
}

#[test]
fn lsr_shifts_bit_zero_into_carry() {
    let mut s = ram_system();
    s.registers.accumulator = 0x03;
    assert!(s.execute(0x4a).is_ok());
    assert_eq!(s.registers.accumulator, 0x01);
    assert!(s.registers.status_read(Flag::Carry));
}

#[test]
fn rol_feeds_carry_into_bit_zero() {
    let mut s = ram_system();
    s.registers.accumulator = 0x80;
    s.registers.status_register = 0x21;  // Carry set
    assert!(s.execute(0x2a).is_ok());
    assert_eq!(s.registers.accumulator, 0x01);
    assert!(s.registers.status_read(Flag::Carry));
}

#[test]
fn ror_feeds_carry_into_bit_seven() {
    let mut s = ram_system();
    s.registers.accumulator = 0x01;
    s.registers.status_register = 0x21;  // Carry set
    assert!(s.execute(0x6a).is_ok());
    assert_eq!(s.registers.accumulator, 0x80);
    assert!(s.registers.status_read(Flag::Carry));
}

#[test]
fn logic_instructions_combine_with_accumulator() {
    let mut s = at(0x0201);
    s.registers.accumulator = 0b1100;
    s.write(0x0201, 0b1010);
    assert!(s.execute(0x29).is_ok());  // AND immediate
    assert_eq!(s.registers.accumulator, 0b1000);
    s.write(0x0202, 0b0001);
    assert!(s.execute(0x09).is_ok());  // ORA immediate
    assert_eq!(s.registers.accumulator, 0b1001);
    s.write(0x0203, 0b1001);
    assert!(s.execute(0x49).is_ok());  // EOR immediate
    assert_eq!(s.registers.accumulator, 0);
    assert!(s.registers.status_read(Flag::Zero));
}

#[test]
fn bit_reads_flags_from_operand_without_touching_accumulator() {
    let mut s = at(0x0201);
    s.registers.accumulator = 0x01;
    s.write(0x0201, 0x80);
    s.write(0x0080, 0xc0);  // bit 7 and bit 6 set, no overlap with 0x01
    assert!(s.execute(0x24).is_ok());
    assert!(s.registers.status_read(Flag::Negative));
    assert!(s.registers.status_read(Flag::Overflow));
    assert!(s.registers.status_read(Flag::Zero));
    assert_eq!(s.registers.accumulator, 0x01);
}

#[test]
fn adc_immediate_through_dispatcher() {
    let mut s = at(0x0201);
    s.registers.accumulator = 0x00;
    s.write(0x0201, 0xff);
    assert!(s.execute(0x69).is_ok());
    assert_eq!(s.registers.accumulator, 0xff);
    assert!(!s.registers.status_read(Flag::Carry));
    assert!(!s.registers.status_read(Flag::Overflow));
    assert!(s.registers.status_read(Flag::Negative));
    assert!(!s.registers.status_read(Flag::Zero));
}

#[test]
fn sbc_immediate_through_dispatcher() {
    let mut s = at(0x0201);
    s.registers.accumulator = 0x50;
    s.registers.status_register = 0x21;  // Carry set: no borrow pending
    s.write(0x0201, 0x20);
    assert!(s.execute(0xe9).is_ok());
    assert_eq!(s.registers.accumulator, 0x30);
    assert!(s.registers.status_read(Flag::Carry));
}

#[test]
fn cmp_clears_carry_on_borrow_and_keeps_accumulator() {
    let mut s = at(0x0201);
    s.registers.accumulator = 0x10;
    s.write(0x0201, 0x20);
    assert!(s.execute(0xc9).is_ok());
    assert!(!s.registers.status_read(Flag::Carry));
    assert_eq!(s.registers.accumulator, 0x10);
}

#[test]
fn cpx_cpy_compare_index_registers() {
    let mut s = at(0x0201);
    s.registers.x_index = 0x20;
    s.write(0x0201, 0x20);
    assert!(s.execute(0xe0).is_ok());
    assert!(s.registers.status_read(Flag::Zero));
    assert!(s.registers.status_read(Flag::Carry));
    s.registers.y_index = 0x10;
    s.write(0x0202, 0x20);
    assert!(s.execute(0xc0).is_ok());
    assert!(!s.registers.status_read(Flag::Carry));
}

#[test]
fn inc_dec_memory_wrap() {
    let mut s = at(0x0201);
    s.write(0x0201, 0x30);
    s.write(0x0030, 0xff);
    assert!(s.execute(0xe6).is_ok());  // INC zero page
    assert_eq!(s.read(0x0030), 0x00);
    assert!(s.registers.status_read(Flag::Zero));
    s.write(0x0202, 0x31);
    s.write(0x0031, 0x00);
    assert!(s.execute(0xc6).is_ok());  // DEC zero page
    assert_eq!(s.read(0x0031), 0xff);
    assert!(s.registers.status_read(Flag::Negative));
}

#[test]
fn index_register_steps_wrap() {
    let mut s = ram_system();
    s.registers.x_index = 0xff;
    assert!(s.execute(0xe8).is_ok());  // INX
    assert_eq!(s.registers.x_index, 0x00);
    assert!(s.registers.status_read(Flag::Zero));
    assert!(s.execute(0xca).is_ok());  // DEX
    assert_eq!(s.registers.x_index, 0xff);
    assert!(s.registers.status_read(Flag::Negative));
    s.registers.y_index = 0x00;
    assert!(s.execute(0x88).is_ok());  // DEY
    assert_eq!(s.registers.y_index, 0xff);
    assert!(s.execute(0xc8).is_ok());  // INY
    assert_eq!(s.registers.y_index, 0x00);
}

#[test]
fn jmp_absolute_and_indirect() {
    let mut s = at(0x0201);
    s.write(0x0201, 0x00);
    s.write(0x0202, 0x34);
    assert!(s.execute(0x4c).is_ok());
    assert_eq!(s.registers.program_counter, 0x3400);
    let mut s2 = at(0x0201);
    s2.write(0x0201, 0x00);
    s2.write(0x0202, 0x34);
    s2.write(0x3400, 0x78);
    s2.write(0x3401, 0x56);
    assert!(s2.execute(0x6c).is_ok());
    assert_eq!(s2.registers.program_counter, 0x5678);
}

#[test]
fn jsr_then_rts_resumes_after_the_instruction() {
    // A JSR at 0x1000 (3 bytes) followed later by RTS resumes at 0x1003.
    let mut s = ram_system();
    s.write(0x1000, 0x20);  // JSR 0x2000
    s.write(0x1001, 0x00);
    s.write(0x1002, 0x20);
    s.write(0x2000, 0x60);  // RTS
    s.write(RESET_VECTOR, 0x00);
    s.write(RESET_VECTOR + 1, 0x10);
    s.reset();
    assert!(s.tick().is_ok());
    assert_eq!(s.registers.program_counter, 0x2000);
    assert!(s.tick().is_ok());
    assert_eq!(s.registers.program_counter, 0x1003);
}

#[test]
fn jsr_pushes_high_byte_then_low_byte_of_return_address() {
    let mut s = at(0x1001);
    s.write(0x1001, 0x00);
    s.write(0x1002, 0x20);
    assert!(s.execute(0x20).is_ok());
    // The pushed address is the last byte of the JSR instruction, 0x1002.
    assert_eq!(s.read(0x01ff), 0x10);
    assert_eq!(s.read(0x01fe), 0x02);
    assert_eq!(s.registers.program_counter, 0x2000);
}

#[test]
fn branch_taken_moves_by_displacement() {
    let mut s = at(0x0201);
    s.write(0x0201, 0x10);  // +16
    s.registers.status_register = 0x22;  // Zero set
    assert!(s.execute(0xf0).is_ok());  // BEQ
    assert_eq!(s.registers.program_counter, 0x0212);
}

#[test]
fn branch_backward_displacement_is_signed() {
    let mut s = at(0x0201);
    s.write(0x0201, 0xfe);  // -2
    s.registers.status_register = 0x20;  // Zero clear
    assert!(s.execute(0xd0).is_ok());  // BNE
    assert_eq!(s.registers.program_counter, 0x0200);
}

#[test]
fn branch_not_taken_still_advances_past_operand() {
    // The displacement byte is consumed even when the condition is false.
    let mut s = at(0x0201);
    s.write(0x0201, 0x10);
    s.registers.status_register = 0x20;  // Zero clear
    assert!(s.execute(0xf0).is_ok());  // BEQ not taken
    assert_eq!(s.registers.program_counter, 0x0202);
    s.registers.status_register = 0x21;  // Carry set
    s.write(0x0202, 0x10);
    assert!(s.execute(0x90).is_ok());  // BCC not taken
    assert_eq!(s.registers.program_counter, 0x0203);
}

#[test]
fn all_branch_variants_follow_their_flag() {
    let cases: Vec<(u8, u8, bool)> = vec![
        (0x90, 0x20, true),   // BCC with Carry clear
        (0x90, 0x21, false),  // BCC with Carry set
        (0xb0, 0x21, true),   // BCS
        (0xf0, 0x22, true),   // BEQ
        (0x30, 0xa0, true),   // BMI
        (0xd0, 0x20, true),   // BNE
        (0x10, 0x20, true),   // BPL
        (0x50, 0x20, true),   // BVC
        (0x70, 0x60, true),   // BVS
    ];
    for (opcode, status, taken) in cases {
        let mut s = at(0x0201);
        s.write(0x0201, 0x08);
        s.registers.status_register = status;
        assert!(s.execute(opcode).is_ok());
        let expected = if taken { 0x020a } else { 0x0202 };
        assert_eq!(s.registers.program_counter, expected);
    }
}

#[test]
fn flag_instructions_touch_exactly_one_flag() {
    let mut s = ram_system();
    s.registers.status_register = 0x20;
    assert!(s.execute(0x38).is_ok());  // SEC
    assert_eq!(s.registers.status_register, 0x21);
    assert!(s.execute(0xf8).is_ok());  // SED
    assert_eq!(s.registers.status_register, 0x29);
    assert!(s.execute(0x78).is_ok());  // SEI
    assert_eq!(s.registers.status_register, 0x2d);
    assert!(s.execute(0x18).is_ok());  // CLC
    assert_eq!(s.registers.status_register, 0x2c);
    assert!(s.execute(0xd8).is_ok());  // CLD
    assert_eq!(s.registers.status_register, 0x24);
    assert!(s.execute(0x58).is_ok());  // CLI
    assert_eq!(s.registers.status_register, 0x20);
    s.registers.status_register = 0x60;
    assert!(s.execute(0xb8).is_ok());  // CLV
    assert_eq!(s.registers.status_register, 0x20);
}

#[test]
fn nop_changes_nothing() {
    let mut s = ram_system();
    s.registers.accumulator = 0x42;
    s.registers.program_counter = 0x0100;
    assert!(s.execute(0xea).is_ok());
    assert_eq!(s.registers.accumulator, 0x42);
    assert_eq!(s.registers.program_counter, 0x0100);
}

#[test]
fn unassigned_opcode_faults_and_mutates_nothing() {
    // 0xFF is unassigned: the dispatcher reports the byte and performs no
    // state mutation for that step.
    let mut s = ram_system();
    s.registers.accumulator = 0x11;
    s.registers.x_index = 0x22;
    s.registers.y_index = 0x33;
    s.registers.program_counter = 0x0400;
    s.write(0x0123, 0x77);
    let before_status = s.registers.status_register;
    let r = s.execute(0xff);
    assert_eq!(r, Err(Fault::UnimplementedOpcode(0xff)));
    assert_eq!(s.registers.accumulator, 0x11);
    assert_eq!(s.registers.x_index, 0x22);
    assert_eq!(s.registers.y_index, 0x33);
    assert_eq!(s.registers.program_counter, 0x0400);
    assert_eq!(s.registers.status_register, before_status);
    assert_eq!(s.read(0x0123), 0x77);
}

#[test]
fn brk_enters_interrupt_with_break_set_and_rti_returns() {
    let mut s = at(0x0701);  // BRK fetched at 0x0700
    s.write(INTERRUPT_VECTOR, 0x00);
    s.write(INTERRUPT_VECTOR + 1, 0x90);
    s.registers.status_register = 0x20;
    assert!(s.execute(0x00).is_ok());
    // The counter was advanced past the signature byte before the push.
    assert_eq!(s.read(0x01ff), 0x07);
    assert_eq!(s.read(0x01fe), 0x02);
    assert_eq!(s.read(0x01fd), 0x30);  // Break and reserved set
    assert!(s.registers.status_read(Flag::Interrupt));
    assert_eq!(s.registers.program_counter, 0x9000);
    // RTI restores exactly what interrupt entry saved.
    assert!(s.execute(0x40).is_ok());
    assert_eq!(s.registers.status_register, 0x30);
    assert_eq!(s.registers.program_counter, 0x0702);
}
