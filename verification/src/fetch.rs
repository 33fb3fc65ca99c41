//! The addressing-mode resolver: consumes operand bytes from the
//! instruction stream through the bus, advancing the program counter, and
//! yields either the operand's value (for read-only operands) or the
//! operand's 16-bit address (for operations that write back).

use vstd::prelude::*;

verus! {

use crate::memory::mem_read;
use crate::registers::{spec_pc_increment, Registers};
use crate::system::{spec_read_word, System, SystemModel};

/// How an instruction's operand bytes are turned into a value or address.
/// `Accumulator` marks the shift-family variants that operate on the
/// accumulator in place and resolve to no memory address at all.
#[derive(Clone, Copy, Debug, PartialEq, Eq, Structural)]
pub enum AddressingMode {
    Immediate,
    ZeroPage,
    ZeroPageX,
    ZeroPageY,
    Absolute,
    AbsoluteX,
    AbsoluteY,
    IndirectX,
    IndirectY,
    Accumulator,
}

/// The byte fetched at the program counter, and the machine with the
/// counter advanced past it.
pub open spec fn spec_fetch(s: SystemModel) -> (u8, SystemModel) {
    let value = mem_read(s.memory, s.registers.program_counter);
    (
        value,
        SystemModel {
            registers: Registers {
                program_counter: spec_pc_increment(s.registers.program_counter),
                ..s.registers
            },
            ..s
        },
    )
}

/// The little-endian word fetched at the program counter (low byte first),
/// and the machine with the counter advanced past both bytes.
pub open spec fn spec_fetch_word(s: SystemModel) -> (u16, SystemModel) {
    let (low, s1) = spec_fetch(s);
    let (high, s2) = spec_fetch(s1);
    (((high * 256 + low) as u16), s2)
}

/// The 16-bit location a value-producing or address-producing mode
/// resolves to, and the machine after its operand bytes were consumed;
/// `None` is the accumulator variant, which has no memory address.
/// Zero-page indexing wraps within the zero page; absolute indexing and
/// indirect-Y wrap within the 16-bit space; indirect-X wraps its pointer
/// within the zero page before dereferencing.
pub open spec fn spec_operand_address(s: SystemModel, mode: AddressingMode) -> (
    Option<u16>,
    SystemModel,
) {
    match mode {
        AddressingMode::Accumulator => (None, s),
        AddressingMode::Immediate => (None, s),
        AddressingMode::ZeroPage => {
            let (base, s1) = spec_fetch(s);
            (Some(base as u16), s1)
        },
        AddressingMode::ZeroPageX => {
            let (base, s1) = spec_fetch(s);
            (Some((((base + s1.registers.x_index) % 256) as u16)), s1)
        },
        AddressingMode::ZeroPageY => {
            let (base, s1) = spec_fetch(s);
            (Some((((base + s1.registers.y_index) % 256) as u16)), s1)
        },
        AddressingMode::Absolute => {
            let (base, s1) = spec_fetch_word(s);
            (Some(base), s1)
        },
        AddressingMode::AbsoluteX => {
            let (base, s1) = spec_fetch_word(s);
            (Some((((base + s1.registers.x_index) % 0x10000) as u16)), s1)
        },
        AddressingMode::AbsoluteY => {
            let (base, s1) = spec_fetch_word(s);
            (Some((((base + s1.registers.y_index) % 0x10000) as u16)), s1)
        },
        AddressingMode::IndirectX => {
            let (base, s1) = spec_fetch(s);
            let pointer = ((base + s1.registers.x_index) % 256) as u16;
            (Some(spec_read_word(s1, pointer)), s1)
        },
        AddressingMode::IndirectY => {
            let (base, s1) = spec_fetch(s);
            let pointer = spec_read_word(s1, base as u16);
            (Some((((pointer + s1.registers.y_index) % 0x10000) as u16)), s1)
        },
    }
}

/// The operand byte a value-producing mode yields, and the machine after
/// its operand bytes were consumed: the immediate mode yields the fetched
/// byte itself, every other mode reads through the resolved address.
pub open spec fn spec_operand_value(s: SystemModel, mode: AddressingMode) -> (u8, SystemModel) {
    match mode {
        AddressingMode::Immediate => spec_fetch(s),
        AddressingMode::Accumulator => (s.registers.accumulator, s),
        _ => {
            let (address, s1) = spec_operand_address(s, mode);
            match address {
                Some(a) => (mem_read(s1.memory, a), s1),
                None => (0, s1),
            }
        },
    }
}

/// The resolver: fetches immediate bytes and words from the instruction
/// stream, or fetches a pointer and returns the value at the resolved
/// address, one method per value-producing addressing mode.
pub trait Fetch {
    /// Fetches the byte at the program counter, advancing it.
    fn fetch(&mut self) -> u8;

    /// Fetches a little-endian word at the program counter, advancing it
    /// past both bytes.
    fn fetch_word(&mut self) -> u16;

    /// Fetches a zero-page address and reads the byte there.
    fn fetch_zero_page(&mut self) -> u8;

    /// Fetches a zero-page base, adds X wrapping within the zero page, and
    /// reads the byte there.
    fn fetch_zero_page_x(&mut self) -> u8;

    /// Fetches a zero-page base, adds Y wrapping within the zero page, and
    /// reads the byte there.
    fn fetch_zero_page_y(&mut self) -> u8;

    /// Fetches an absolute address and reads the byte there.
    fn fetch_absolute(&mut self) -> u8;

    /// Fetches an absolute base, adds X with 16-bit wraparound, and reads
    /// the byte there.
    fn fetch_absolute_x(&mut self) -> u8;

    /// Fetches an absolute base, adds Y with 16-bit wraparound, and reads
    /// the byte there.
    fn fetch_absolute_y(&mut self) -> u8;

    /// Fetches a zero-page pointer offset by X (wrapped within the zero
    /// page), dereferences the word stored there, and reads the byte at it.
    fn fetch_indirect_x(&mut self) -> u8;

    /// Fetches a zero-page pointer, dereferences the word stored there,
    /// adds Y with 16-bit wraparound, and reads the byte at the sum.
    fn fetch_indirect_y(&mut self) -> u8;
}

impl Fetch for System {
    fn fetch(&mut self) -> (r: u8)
        ensures
            ({
                let (value, s1) = spec_fetch(old(self)@);
                r == value && final(self)@ == s1
            }),
    {
        let value = self.read(self.registers.pc_address());
        let mut registers = self.registers;
        registers.pc_increment();
        self.registers = registers;
        value
    }

    fn fetch_word(&mut self) -> (r: u16)
        ensures
            ({
                let (value, s1) = spec_fetch_word(old(self)@);
                r == value && final(self)@ == s1
            }),
    {
        let low = self.fetch();
        let high = self.fetch();
        high as u16 * 256 + low as u16
    }

    fn fetch_zero_page(&mut self) -> (r: u8)
        ensures
            ({
                let (value, s1) = spec_operand_value(old(self)@, AddressingMode::ZeroPage);
                r == value && final(self)@ == s1
            }),
    {
        let base = self.fetch();
        self.read(base as u16)
    }

    fn fetch_zero_page_x(&mut self) -> (r: u8)
        ensures
            ({
                let (value, s1) = spec_operand_value(old(self)@, AddressingMode::ZeroPageX);
                r == value && final(self)@ == s1
            }),
    {
        let base = self.fetch();
        let address = ((base as u16 + self.registers.x_index as u16) % 256) as u16;
        self.read(address)
    }

    fn fetch_zero_page_y(&mut self) -> (r: u8)
        ensures
            ({
                let (value, s1) = spec_operand_value(old(self)@, AddressingMode::ZeroPageY);
                r == value && final(self)@ == s1
            }),
    {
        let base = self.fetch();
        let address = ((base as u16 + self.registers.y_index as u16) % 256) as u16;
        self.read(address)
    }

    fn fetch_absolute(&mut self) -> (r: u8)
        ensures
            ({
                let (value, s1) = spec_operand_value(old(self)@, AddressingMode::Absolute);
                r == value && final(self)@ == s1
            }),
    {
        let address = self.fetch_word();
        self.read(address)
    }

    fn fetch_absolute_x(&mut self) -> (r: u8)
        ensures
            ({
                let (value, s1) = spec_operand_value(old(self)@, AddressingMode::AbsoluteX);
                r == value && final(self)@ == s1
            }),
    {
        let base = self.fetch_word();
        let address = ((base as u32 + self.registers.x_index as u32) % 0x10000) as u16;
        self.read(address)
    }

    fn fetch_absolute_y(&mut self) -> (r: u8)
        ensures
            ({
                let (value, s1) = spec_operand_value(old(self)@, AddressingMode::AbsoluteY);
                r == value && final(self)@ == s1
            }),
    {
        let base = self.fetch_word();
        let address = ((base as u32 + self.registers.y_index as u32) % 0x10000) as u16;
        self.read(address)
    }

    fn fetch_indirect_x(&mut self) -> (r: u8)
        ensures
            ({
                let (value, s1) = spec_operand_value(old(self)@, AddressingMode::IndirectX);
                r == value && final(self)@ == s1
            }),
    {
        let base = self.fetch();
        let pointer = ((base as u16 + self.registers.x_index as u16) % 256) as u16;
        let address = self.read_word(pointer);
        self.read(address)
    }

    fn fetch_indirect_y(&mut self) -> (r: u8)
        ensures
            ({
                let (value, s1) = spec_operand_value(old(self)@, AddressingMode::IndirectY);
                r == value && final(self)@ == s1
            }),
    {
        let base = self.fetch();
        let pointer = self.read_word(base as u16);
        let address = ((pointer as u32 + self.registers.y_index as u32) % 0x10000) as u16;
        self.read(address)
    }
}

impl System {
    /// Resolves an address-producing opcode to the operand's memory
    /// address, consuming its operand bytes; `None` means the instruction's
    /// accumulator variant was selected and the caller operates on the
    /// accumulator in place.
    pub fn fetch_operand_address(&mut self, mode: AddressingMode) -> (r: Option<u16>)
        ensures
            ({
                let (address, s1) = spec_operand_address(old(self)@, mode);
                r == address && final(self)@ == s1
            }),
    {
        match mode {
            AddressingMode::Accumulator => None,
            AddressingMode::Immediate => None,
            AddressingMode::ZeroPage => {
                let base = self.fetch();
                Some(base as u16)
            },
            AddressingMode::ZeroPageX => {
                let base = self.fetch();
                Some(((base as u16 + self.registers.x_index as u16) % 256) as u16)
            },
            AddressingMode::ZeroPageY => {
                let base = self.fetch();
                Some(((base as u16 + self.registers.y_index as u16) % 256) as u16)
            },
            AddressingMode::Absolute => {
                let base = self.fetch_word();
                Some(base)
            },
            AddressingMode::AbsoluteX => {
                let base = self.fetch_word();
                Some(((base as u32 + self.registers.x_index as u32) % 0x10000) as u16)
            },
            AddressingMode::AbsoluteY => {
                let base = self.fetch_word();
                Some(((base as u32 + self.registers.y_index as u32) % 0x10000) as u16)
            },
            AddressingMode::IndirectX => {
                let base = self.fetch();
                let pointer = ((base as u16 + self.registers.x_index as u16) % 256) as u16;
                Some(self.read_word(pointer))
            },
            AddressingMode::IndirectY => {
                let base = self.fetch();
                let pointer = self.read_word(base as u16);
                Some(((pointer as u32 + self.registers.y_index as u32) % 0x10000) as u16)
            },
        }
    }

    /// Resolves a value-producing opcode to the operand's byte value,
    /// consuming its operand bytes.
    pub fn fetch_operand_value(&mut self, mode: AddressingMode) -> (r: u8)
        ensures
            ({
                let (value, s1) = spec_operand_value(old(self)@, mode);
                r == value && final(self)@ == s1
            }),
    {
        match mode {
            AddressingMode::Immediate => self.fetch(),
            AddressingMode::Accumulator => self.registers.accumulator,
            AddressingMode::ZeroPage => self.fetch_zero_page(),
            AddressingMode::ZeroPageX => self.fetch_zero_page_x(),
            AddressingMode::ZeroPageY => self.fetch_zero_page_y(),
            AddressingMode::Absolute => self.fetch_absolute(),
            AddressingMode::AbsoluteX => self.fetch_absolute_x(),
            AddressingMode::AbsoluteY => self.fetch_absolute_y(),
            AddressingMode::IndirectX => self.fetch_indirect_x(),
            AddressingMode::IndirectY => self.fetch_indirect_y(),
        }
    }
}

} // verus!
