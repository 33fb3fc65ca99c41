//! The system driver: owns the register file and the root of the address
//! space, provides the bus and stack accesses the engine works through, and
//! exposes power-on reset and interrupt entry.

use vstd::prelude::*;

verus! {

use crate::execute::{spec_execute, Execute, Fault};
use crate::fetch::{spec_fetch, Fetch};
use crate::memory::{mem_read, mem_reset, mem_tick, mem_write, MemModel, Memory};
use crate::registers::{power_on_registers, spec_status_write, Flag, Registers};

/// The address the program counter is loaded from at power-on reset.
pub const RESET_VECTOR: u16 = 0xfffc;

/// The address the program counter is loaded from on interrupt entry.
pub const INTERRUPT_VECTOR: u16 = 0xfffe;

/// Mathematical model of the whole machine: the register file and the
/// model of the composed address space.
pub struct SystemModel {
    pub registers: Registers,
    pub memory: MemModel,
}

/// The machine after one byte is written through the bus.
pub open spec fn spec_sys_write(s: SystemModel, address: u16, value: u8) -> SystemModel {
    SystemModel { memory: mem_write(s.memory, address, value), ..s }
}

/// The 16-bit little-endian word read at `address`: low byte first, high
/// byte at the following address (wrapping at the top of the space).
pub open spec fn spec_read_word(s: SystemModel, address: u16) -> u16 {
    let low = mem_read(s.memory, address);
    let high = mem_read(s.memory, (((address + 1) % 0x10000) as u16));
    (high * 256 + low) as u16
}

/// The machine after one byte is pushed: the byte lands at the stack
/// pointer's slot in the fixed page 0x0100-0x01FF and the pointer moves
/// down by one, wrapping within the page.
pub open spec fn spec_push(s: SystemModel, value: u8) -> SystemModel {
    let slot = (0x100 + s.registers.stack_pointer) as u16;
    SystemModel {
        registers: Registers {
            stack_pointer: ((s.registers.stack_pointer + 255) % 256) as u8,
            ..s.registers
        },
        memory: mem_write(s.memory, slot, value),
    }
}

/// The byte pulled from the stack and the machine after pulling it: the
/// pointer moves up by one, wrapping within the page, and the byte is read
/// from the slot it then names.
pub open spec fn spec_pop(s: SystemModel) -> (u8, SystemModel) {
    let pointer = ((s.registers.stack_pointer + 1) % 256) as u8;
    let value = mem_read(s.memory, (0x100 + pointer) as u16);
    (value, SystemModel { registers: Registers { stack_pointer: pointer, ..s.registers }, ..s })
}

/// The machine after interrupt entry: the program counter is pushed high
/// byte then low byte, the status byte is pushed with Break set when the
/// source is software (clear otherwise) and the reserved bit set, the
/// interrupt-disable flag is set, and the program counter is loaded from
/// the interrupt vector.
pub open spec fn spec_interrupt(s: SystemModel, is_software: bool) -> SystemModel {
    let pc = s.registers.program_counter;
    let status = s.registers.status_register;
    let pushed = if is_software {
        (status | Flag::Break.spec_mask()) | 0x20
    } else {
        (status & !Flag::Break.spec_mask()) | 0x20
    };
    let s1 = spec_push(s, (pc / 256) as u8);
    let s2 = spec_push(s1, (pc % 256) as u8);
    let s3 = spec_push(s2, pushed);
    SystemModel {
        registers: Registers {
            status_register: spec_status_write(status, Flag::Interrupt, true),
            program_counter: spec_read_word(s3, INTERRUPT_VECTOR),
            ..s3.registers
        },
        memory: s3.memory,
    }
}

/// The machine after power-on reset: every backing store returns to its
/// power-on state, the registers take their power-on values, and the
/// program counter is loaded from the reset vector.
pub open spec fn spec_reset(s: SystemModel) -> SystemModel {
    let memory = mem_reset(s.memory);
    let pc = spec_read_word(SystemModel { registers: s.registers, memory }, RESET_VECTOR);
    SystemModel {
        registers: Registers { program_counter: pc, ..power_on_registers() },
        memory,
    }
}

/// One fetch-decode-execute step: the opcode byte is fetched at the
/// program counter (advancing it), handed to the dispatcher, and every
/// backing store is stepped once; a dispatch fault is surfaced to the
/// caller and mutates nothing beyond the opcode fetch and the store step.
pub open spec fn spec_tick(s: SystemModel) -> (Result<(), Fault>, SystemModel) {
    let (opcode, s1) = spec_fetch(s);
    match spec_execute(s1, opcode) {
        Some(s2) => (Ok(()), SystemModel { memory: mem_tick(s2.memory), ..s2 }),
        None => (
            Err(Fault::UnimplementedOpcode(opcode)),
            SystemModel { memory: mem_tick(s1.memory), ..s1 },
        ),
    }
}

/// The machine: the register file and the root of the address space,
/// stepped one instruction at a time.
pub struct System {
    pub registers: Registers,
    pub memory: Memory,
}

impl View for System {
    type V = SystemModel;

    open spec fn view(&self) -> SystemModel {
        SystemModel { registers: self.registers, memory: self.memory@ }
    }
}

impl System {
    /// A machine over the given address space, with the register file in
    /// its power-on state; `reset` loads the reset vector.
    pub fn new(memory: Memory) -> (r: System)
        ensures
            r@ == (SystemModel { registers: power_on_registers(), memory: memory@ }),
    {
        System { registers: Registers::new(), memory }
    }

    /// Reads one byte through the bus; total, unmapped reads return 0.
    pub fn read(&self, address: u16) -> (r: u8)
        ensures
            r == mem_read(self@.memory, address),
    {
        self.memory.read(address)
    }

    /// Writes one byte through the bus; total, unmapped writes are
    /// dropped.
    pub fn write(&mut self, address: u16, value: u8)
        ensures
            final(self)@ == spec_sys_write(old(self)@, address, value),
    {
        self.memory.write(address, value);
    }

    /// Reads a 16-bit little-endian word through the bus.
    pub fn read_word(&self, address: u16) -> (r: u16)
        ensures
            r == spec_read_word(self@, address),
    {
        let low = self.memory.read(address);
        let high = self.memory.read((((address as u32 + 1) % 0x10000) as u16));
        high as u16 * 256 + low as u16
    }

    /// Pushes one byte onto the stack page.
    pub fn push(&mut self, value: u8)
        ensures
            final(self)@ == spec_push(old(self)@, value),
    {
        let slot: u16 = 0x100 + self.registers.stack_pointer as u16;
        self.memory.write(slot, value);
        self.registers.stack_pointer = (((self.registers.stack_pointer as u16) + 255) % 256) as u8;
    }

    /// Pulls one byte from the stack page.
    pub fn pop(&mut self) -> (r: u8)
        ensures
            ({
                let (value, s2) = spec_pop(old(self)@);
                r == value && final(self)@ == s2
            }),
    {
        let pointer: u8 = (((self.registers.stack_pointer as u16) + 1) % 256) as u8;
        self.registers.stack_pointer = pointer;
        self.memory.read(0x100 + pointer as u16)
    }

    /// Enters an interrupt: pushes the program counter (high byte, then
    /// low), pushes the status byte with Break reflecting the source, sets
    /// interrupt-disable, and jumps through the interrupt vector.
    pub fn interrupt(&mut self, is_software: bool)
        ensures
            final(self)@ == spec_interrupt(old(self)@, is_software),
    {
        let pc = self.registers.program_counter;
        let status = self.registers.status_register;
        let pushed: u8 = if is_software {
            (status | Flag::Break.mask()) | 0x20
        } else {
            (status & !Flag::Break.mask()) | 0x20
        };
        self.push((pc / 256) as u8);
        self.push((pc % 256) as u8);
        self.push(pushed);
        self.registers.status_set(Flag::Interrupt);
        let target = self.read_word(INTERRUPT_VECTOR);
        self.registers.pc_load(target);
    }

    /// Power-on reset: resets every backing store, restores the register
    /// file to its power-on state, and loads the program counter from the
    /// reset vector.
    pub fn reset(&mut self)
        ensures
            final(self)@ == spec_reset(old(self)@),
    {
        self.memory.reset();
        self.registers = Registers::new();
        let pc = self.read_word(RESET_VECTOR);
        self.registers.pc_load(pc);
    }

    /// Performs exactly one fetch-decode-execute cycle; a dispatch fault
    /// is surfaced to the caller, who decides whether to halt the session.
    pub fn tick(&mut self) -> (r: Result<(), Fault>)
        ensures
            ({
                let (result, s1) = spec_tick(old(self)@);
                r == result && final(self)@ == s1
            }),
    {
        let opcode = self.fetch();
        let result = self.execute(opcode);
        self.memory.tick();
        result
    }
}

/// The reserved status bit is always read as set: reset establishes it,
/// and once it holds, a whole fetch-decode-execute step keeps it.
pub proof fn lemma_tick_keeps_reserved_bit(s: SystemModel)
    requires
        s.registers.status_register & 0x20 != 0,
    ensures
        spec_reset(s).registers.status_register & 0x20 != 0,
        spec_tick(s).1.registers.status_register & 0x20 != 0,
{
    assert(0x24u8 & 0x20 != 0) by (bit_vector);
    let (opcode, s1) = spec_fetch(s);
    crate::execute::lemma_execute_keeps_reserved_bit(s1, opcode);
}

/// Immediately after a reset, execution begins at the address stored at
/// the reset vector: the program counter holds the word read there, and
/// the first tick that follows fetches its opcode from exactly that
/// address.
pub proof fn lemma_reset_then_tick(s: SystemModel)
    ensures
        spec_reset(s).registers.program_counter == spec_read_word(spec_reset(s), RESET_VECTOR),
        ({
            let s1 = spec_reset(s);
            let (opcode, s2) = spec_fetch(s1);
            opcode == mem_read(s1.memory, spec_read_word(s1, RESET_VECTOR))
        }),
{
}

} // verus!
