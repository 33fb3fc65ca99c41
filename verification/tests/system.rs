use mos6502::execute::Fault;
use mos6502::memory::{BlockMemory, BranchMemory, Memory};
use mos6502::registers::Flag;
use mos6502::system::{System, INTERRUPT_VECTOR, RESET_VECTOR};

fn ram_system() -> System {
    System::new(Memory::Block(BlockMemory::new(vec![0u8; 0x10000], true)))
}

#[test]
fn bus_read_write_round_trip() {
    let mut s = ram_system();
    s.write(0x1234, 0x56);
    assert_eq!(s.read(0x1234), 0x56);
    assert_eq!(s.read(0x1235), 0x00);
}

#[test]
fn read_word_is_little_endian() {
    let mut s = ram_system();
    s.write(0x2000, 0x34);
    s.write(0x2001, 0x12);
    assert_eq!(s.read_word(0x2000), 0x1234);
}

#[test]
fn push_lands_in_stack_page_and_moves_pointer_down() {
    let mut s = ram_system();
    assert_eq!(s.registers.stack_pointer, 0xff);
    s.push(0xab);
    assert_eq!(s.read(0x01ff), 0xab);
    assert_eq!(s.registers.stack_pointer, 0xfe);
}

#[test]
fn push_pop_round_trip() {
    let mut s = ram_system();
    s.push(0x11);
    s.push(0x22);
    assert_eq!(s.pop(), 0x22);
    assert_eq!(s.pop(), 0x11);
    assert_eq!(s.registers.stack_pointer, 0xff);
}

#[test]
fn stack_pointer_wraps_within_page() {
    let mut s = ram_system();
    s.registers.stack_pointer = 0x00;
    s.push(0x99);
    assert_eq!(s.read(0x0100), 0x99);
    assert_eq!(s.registers.stack_pointer, 0xff);
}

#[test]
fn reset_loads_program_counter_from_reset_vector() {
    let mut s = ram_system();
    s.write(RESET_VECTOR, 0x00);
    s.write(RESET_VECTOR + 1, 0x80);
    s.registers.accumulator = 0x55;
    s.reset();
    assert_eq!(s.registers.program_counter, 0x8000);
    assert_eq!(s.registers.accumulator, 0);
    assert_eq!(s.registers.stack_pointer, 0xff);
    assert!(s.registers.status_read(Flag::Interrupt));
}

#[test]
fn reset_then_tick_executes_at_reset_vector() {
    let mut s = ram_system();
    s.write(RESET_VECTOR, 0x00);
    s.write(RESET_VECTOR + 1, 0x40);
    // At 0x4000: LDA immediate 0x7E.
    s.write(0x4000, 0xa9);
    s.write(0x4001, 0x7e);
    s.reset();
    assert_eq!(s.registers.program_counter, 0x4000);
    assert!(s.tick().is_ok());
    assert_eq!(s.registers.accumulator, 0x7e);
    assert_eq!(s.registers.program_counter, 0x4002);
}

#[test]
fn tick_surfaces_dispatch_fault() {
    let mut s = ram_system();
    s.write(0x0300, 0xff);
    s.registers.program_counter = 0x0300;
    let r = s.tick();
    assert_eq!(r, Err(Fault::UnimplementedOpcode(0xff)));
    // The opcode byte was consumed; the caller decides what happens next.
    assert_eq!(s.registers.program_counter, 0x0301);
}

#[test]
fn interrupt_pushes_state_and_jumps_through_vector() {
    let mut s = ram_system();
    s.write(INTERRUPT_VECTOR, 0x00);
    s.write(INTERRUPT_VECTOR + 1, 0x90);
    s.registers.program_counter = 0x1234;
    s.registers.status_register = 0x20;
    s.interrupt(false);
    // Program counter pushed high byte then low byte.
    assert_eq!(s.read(0x01ff), 0x12);
    assert_eq!(s.read(0x01fe), 0x34);
    // Status pushed with Break clear for a hardware source.
    assert_eq!(s.read(0x01fd), 0x20);
    assert!(s.registers.status_read(Flag::Interrupt));
    assert_eq!(s.registers.program_counter, 0x9000);
}

#[test]
fn composed_system_runs_a_program_from_rom() {
    // RAM over the low half of the space, a ROM image over the high half,
    // with the reset vector at its top pointing at the program.
    let mut rom = vec![0u8; 0x8000];
    rom[0x0000] = 0xa9;  // LDA #$42
    rom[0x0001] = 0x42;
    rom[0x0002] = 0x85;  // STA $10
    rom[0x0003] = 0x10;
    rom[0x0004] = 0xe8;  // INX
    rom[0x7ffc] = 0x00;  // reset vector: 0x8000
    rom[0x7ffd] = 0x80;
    let address_space = BranchMemory::new()
        .map(0x0000, Memory::Block(BlockMemory::new(vec![0u8; 0x8000], true)))
        .map(0x8000, Memory::Block(BlockMemory::new(rom, false)));
    let mut s = System::new(Memory::Branch(address_space));
    s.reset();
    assert_eq!(s.registers.program_counter, 0x8000);
    assert!(s.tick().is_ok());
    assert!(s.tick().is_ok());
    assert!(s.tick().is_ok());
    assert_eq!(s.registers.accumulator, 0x42);
    assert_eq!(s.read(0x0010), 0x42);
    assert_eq!(s.registers.x_index, 0x01);
    assert_eq!(s.registers.program_counter, 0x8005);
    // The store went to RAM; a write aimed at the ROM region is dropped.
    s.write(0x8000, 0x00);
    assert_eq!(s.read(0x8000), 0xa9);
}

#[test]
fn software_interrupt_pushes_break_set() {
    let mut s = ram_system();
    s.write(INTERRUPT_VECTOR, 0x00);
    s.write(INTERRUPT_VECTOR + 1, 0x90);
    s.registers.program_counter = 0x1234;
    s.registers.status_register = 0x20;
    s.interrupt(true);
    assert_eq!(s.read(0x01fd), 0x30);
    assert_eq!(s.registers.program_counter, 0x9000);
}
