use mos6502::registers::{Flag, Registers};

fn fresh() -> Registers {
    Registers::new()
}

#[test]
fn power_on_state() {
    let r = fresh();
    assert_eq!(r.accumulator, 0);
    assert_eq!(r.x_index, 0);
    assert_eq!(r.y_index, 0);
    assert_eq!(r.stack_pointer, 0xff);
    assert_eq!(r.program_counter, 0);
    // Interrupt-disable and the reserved bit are set at power-on.
    assert_eq!(r.status_register, 0x24);
}

#[test]
fn set_nz_zero_value() {
    let mut r = fresh();
    r.status_set_nz(0x00);
    assert!(r.status_read(Flag::Zero));
    assert!(!r.status_read(Flag::Negative));
}

#[test]
fn set_nz_negative_value() {
    let mut r = fresh();
    r.status_set_nz(0x80);
    assert!(!r.status_read(Flag::Zero));
    assert!(r.status_read(Flag::Negative));
}

#[test]
fn set_nz_plain_value() {
    let mut r = fresh();
    r.status_set_nz(0x01);
    assert!(!r.status_read(Flag::Zero));
    assert!(!r.status_read(Flag::Negative));
}

#[test]
fn set_nz_preserves_other_flags() {
    let mut r = fresh();
    r.status_set(Flag::Carry);
    r.status_set(Flag::Decimal);
    r.status_set_nz(0x00);
    assert!(r.status_read(Flag::Carry));
    assert!(r.status_read(Flag::Decimal));
    assert!(r.status_read(Flag::Interrupt));
    r.status_set_nz(0xff);
    assert!(r.status_read(Flag::Carry));
    assert!(r.status_read(Flag::Decimal));
}

#[test]
fn status_write_set_clear() {
    let mut r = fresh();
    r.status_write(Flag::Overflow, true);
    assert!(r.status_read(Flag::Overflow));
    r.status_write(Flag::Overflow, false);
    assert!(!r.status_read(Flag::Overflow));
    r.status_set(Flag::Carry);
    assert!(r.status_read(Flag::Carry));
    r.status_clear(Flag::Carry);
    assert!(!r.status_read(Flag::Carry));
}

#[test]
fn status_load_keeps_reserved_bit_set() {
    let mut r = fresh();
    r.status_load(0x00);
    assert_eq!(r.status_register, 0x20);
    r.status_load(0xdf);
    assert_eq!(r.status_register, 0xff);
}

#[test]
fn alu_add_no_carry_no_overflow() {
    // 0x00 ADC 0xFF with Carry clear: 0xFF, Carry clear, Overflow clear,
    // Negative set, Zero clear.
    let mut r = fresh();
    r.accumulator = 0x00;
    r.status_clear(Flag::Carry);
    r.alu_add(0xff);
    assert_eq!(r.accumulator, 0xff);
    assert!(!r.status_read(Flag::Carry));
    assert!(!r.status_read(Flag::Overflow));
    assert!(r.status_read(Flag::Negative));
    assert!(!r.status_read(Flag::Zero));
}

#[test]
fn alu_add_signed_overflow() {
    // 0x50 ADC 0x50 with Carry clear: 0xA0, Carry clear, Overflow set,
    // Negative set.
    let mut r = fresh();
    r.accumulator = 0x50;
    r.status_clear(Flag::Carry);
    r.alu_add(0x50);
    assert_eq!(r.accumulator, 0xa0);
    assert!(!r.status_read(Flag::Carry));
    assert!(r.status_read(Flag::Overflow));
    assert!(r.status_read(Flag::Negative));
}

#[test]
fn alu_add_carry_out_and_carry_in() {
    let mut r = fresh();
    r.accumulator = 0xff;
    r.status_clear(Flag::Carry);
    r.alu_add(0x01);
    assert_eq!(r.accumulator, 0x00);
    assert!(r.status_read(Flag::Carry));
    assert!(r.status_read(Flag::Zero));
    assert!(!r.status_read(Flag::Overflow));
    // The carry now feeds into the next add.
    r.alu_add(0x00);
    assert_eq!(r.accumulator, 0x01);
    assert!(!r.status_read(Flag::Carry));
}

#[test]
fn alu_subtract_with_borrow_semantics() {
    // With Carry set (no borrow), 0x50 SBC 0x10 is 0x40 and keeps Carry.
    let mut r = fresh();
    r.accumulator = 0x50;
    r.status_set(Flag::Carry);
    r.alu_subtract(0x10);
    assert_eq!(r.accumulator, 0x40);
    assert!(r.status_read(Flag::Carry));
    // 0x10 SBC 0x20 borrows: result wraps and Carry clears.
    let mut r2 = fresh();
    r2.accumulator = 0x10;
    r2.status_set(Flag::Carry);
    r2.alu_subtract(0x20);
    assert_eq!(r2.accumulator, 0xf0);
    assert!(!r2.status_read(Flag::Carry));
}

#[test]
fn alu_compare_borrow_clears_carry() {
    // CMP of 0x10 against 0x20 clears Carry and mutates no data register.
    let mut r = fresh();
    r.accumulator = 0x10;
    let register = r.accumulator;
    r.alu_compare(register, 0x20);
    assert!(!r.status_read(Flag::Carry));
    assert_eq!(r.accumulator, 0x10);
    assert!(!r.status_read(Flag::Zero));
    // 0x10 - 0x20 is 0xF0 modulo 256: Negative set.
    assert!(r.status_read(Flag::Negative));
}

#[test]
fn alu_compare_equal_and_greater() {
    let mut r = fresh();
    r.alu_compare(0x20, 0x20);
    assert!(r.status_read(Flag::Carry));
    assert!(r.status_read(Flag::Zero));
    r.alu_compare(0x30, 0x20);
    assert!(r.status_read(Flag::Carry));
    assert!(!r.status_read(Flag::Zero));
}

#[test]
fn pc_increment_wraps() {
    let mut r = fresh();
    r.pc_load(0xffff);
    r.pc_increment();
    assert_eq!(r.pc_address(), 0x0000);
    r.pc_increment();
    assert_eq!(r.pc_address(), 0x0001);
}

#[test]
fn pc_offset_signed_displacement() {
    let mut r = fresh();
    r.pc_load(0x1000);
    r.pc_offset(-2);
    assert_eq!(r.pc_address(), 0x0ffe);
    r.pc_offset(127);
    assert_eq!(r.pc_address(), 0x107d);
    r.pc_load(0x0000);
    r.pc_offset(-1);
    assert_eq!(r.pc_address(), 0xffff);
}
