//! The opcode dispatcher: a pure mapping from one fetched opcode byte to
//! its effect on the machine. Every recognized opcode completes with a
//! success signal; an unassigned byte is a dispatch fault that carries the
//! offending byte and mutates nothing.

use vstd::prelude::*;

verus! {

use crate::fetch::{
    spec_fetch,
    spec_fetch_word,
    spec_operand_address,
    spec_operand_value,
    AddressingMode,
    Fetch,
};
use crate::memory::{lemma_mem_write_read, mem_read, mem_write, writable_at};
use crate::registers::{
    flag_set,
    spec_alu_add,
    spec_alu_compare,
    spec_pc_increment,
    spec_pc_offset,
    spec_set_nz,
    spec_status_write,
    Flag,
    Registers,
};
use crate::system::{spec_interrupt, spec_pop, spec_push, spec_read_word, System, SystemModel};

/// A failure surfaced by one execution step. The only fault at present is
/// an opcode byte no recognized instruction covers; it carries the
/// offending byte and the step mutates nothing.
#[derive(Clone, Copy, Debug, PartialEq, Eq, Structural)]
pub enum Fault {
    UnimplementedOpcode(u8),
}

/// The value-producing addressing mode of a load, logic, arithmetic or
/// compare opcode; `None` for opcodes outside those families.
pub open spec fn value_mode(opcode: u8) -> Option<AddressingMode> {
    match opcode {
        0xa9 | 0xa2 | 0xa0 | 0x29 | 0x49 | 0x09 | 0x69 | 0xe9 | 0xc9 | 0xe0 | 0xc0 => Some(
            AddressingMode::Immediate,
        ),
        0xa5 | 0xa6 | 0xa4 | 0x25 | 0x24 | 0x45 | 0x05 | 0x65 | 0xe5 | 0xc5 | 0xe4 | 0xc4 => Some(
            AddressingMode::ZeroPage,
        ),
        0xb5 | 0xb4 | 0x35 | 0x55 | 0x15 | 0x75 | 0xf5 | 0xd5 => Some(AddressingMode::ZeroPageX),
        0xb6 => Some(AddressingMode::ZeroPageY),
        0xad | 0xae | 0xac | 0x2d | 0x2c | 0x4d | 0x0d | 0x6d | 0xed | 0xcd | 0xec | 0xcc => Some(
            AddressingMode::Absolute,
        ),
        0xbd | 0xbc | 0x3d | 0x5d | 0x1d | 0x7d | 0xfd | 0xdd => Some(AddressingMode::AbsoluteX),
        0xb9 | 0xbe | 0x39 | 0x59 | 0x19 | 0x79 | 0xf9 | 0xd9 => Some(AddressingMode::AbsoluteY),
        0xa1 | 0x21 | 0x41 | 0x01 | 0x61 | 0xe1 | 0xc1 => Some(AddressingMode::IndirectX),
        0xb1 | 0x31 | 0x51 | 0x11 | 0x71 | 0xf1 | 0xd1 => Some(AddressingMode::IndirectY),
        _ => None,
    }
}

/// The address-producing addressing mode of a store or read-modify-write
/// opcode; `Accumulator` for the shift variants that work on the
/// accumulator in place; `None` for opcodes outside those families.
pub open spec fn address_mode(opcode: u8) -> Option<AddressingMode> {
    match opcode {
        0x0a | 0x4a | 0x2a | 0x6a => Some(AddressingMode::Accumulator),
        0x85 | 0x86 | 0x84 | 0x06 | 0x46 | 0x26 | 0x66 | 0xc6 | 0xe6 => Some(
            AddressingMode::ZeroPage,
        ),
        0x95 | 0x94 | 0x16 | 0x56 | 0x36 | 0x76 | 0xd6 | 0xf6 => Some(AddressingMode::ZeroPageX),
        0x96 => Some(AddressingMode::ZeroPageY),
        0x8d | 0x8e | 0x8c | 0x0e | 0x4e | 0x2e | 0x6e | 0xce | 0xee => Some(
            AddressingMode::Absolute,
        ),
        0x9d | 0x1e | 0x5e | 0x3e | 0x7e | 0xde | 0xfe => Some(AddressingMode::AbsoluteX),
        0x99 => Some(AddressingMode::AbsoluteY),
        0x81 => Some(AddressingMode::IndirectX),
        0x91 => Some(AddressingMode::IndirectY),
        _ => None,
    }
}

/// Looks up the value-producing mode of an opcode known to have one.
fn value_mode_of(opcode: u8) -> (r: AddressingMode)
    requires
        value_mode(opcode) is Some,
    ensures
        Some(r) == value_mode(opcode),
{
    match opcode {
        0xa9 | 0xa2 | 0xa0 | 0x29 | 0x49 | 0x09 | 0x69 | 0xe9 | 0xc9 | 0xe0 | 0xc0 => AddressingMode::Immediate,
        0xa5 | 0xa6 | 0xa4 | 0x25 | 0x24 | 0x45 | 0x05 | 0x65 | 0xe5 | 0xc5 | 0xe4 | 0xc4 => AddressingMode::ZeroPage,
        0xb5 | 0xb4 | 0x35 | 0x55 | 0x15 | 0x75 | 0xf5 | 0xd5 => AddressingMode::ZeroPageX,
        0xb6 => AddressingMode::ZeroPageY,
        0xad | 0xae | 0xac | 0x2d | 0x2c | 0x4d | 0x0d | 0x6d | 0xed | 0xcd | 0xec | 0xcc => AddressingMode::Absolute,
        0xbd | 0xbc | 0x3d | 0x5d | 0x1d | 0x7d | 0xfd | 0xdd => AddressingMode::AbsoluteX,
        0xb9 | 0xbe | 0x39 | 0x59 | 0x19 | 0x79 | 0xf9 | 0xd9 => AddressingMode::AbsoluteY,
        0xa1 | 0x21 | 0x41 | 0x01 | 0x61 | 0xe1 | 0xc1 => AddressingMode::IndirectX,
        _ => AddressingMode::IndirectY,
    }
}

/// Looks up the address-producing mode of an opcode known to have one.
fn address_mode_of(opcode: u8) -> (r: AddressingMode)
    requires
        address_mode(opcode) is Some,
    ensures
        Some(r) == address_mode(opcode),
{
    match opcode {
        0x0a | 0x4a | 0x2a | 0x6a => AddressingMode::Accumulator,
        0x85 | 0x86 | 0x84 | 0x06 | 0x46 | 0x26 | 0x66 | 0xc6 | 0xe6 => AddressingMode::ZeroPage,
        0x95 | 0x94 | 0x16 | 0x56 | 0x36 | 0x76 | 0xd6 | 0xf6 => AddressingMode::ZeroPageX,
        0x96 => AddressingMode::ZeroPageY,
        0x8d | 0x8e | 0x8c | 0x0e | 0x4e | 0x2e | 0x6e | 0xce | 0xee => AddressingMode::Absolute,
        0x9d | 0x1e | 0x5e | 0x3e | 0x7e | 0xde | 0xfe => AddressingMode::AbsoluteX,
        0x99 => AddressingMode::AbsoluteY,
        0x81 => AddressingMode::IndirectX,
        _ => AddressingMode::IndirectY,
    }
}

/// LDA: loads the accumulator from the operand and sets Zero/Negative.
pub open spec fn spec_lda(s: SystemModel, opcode: u8) -> SystemModel {
    let (value, s1) = spec_operand_value(s, value_mode(opcode)->Some_0);
    SystemModel {
        registers: Registers {
            accumulator: value,
            status_register: spec_set_nz(s1.registers.status_register, value),
            ..s1.registers
        },
        ..s1
    }
}

/// LDX: loads the X index from the operand and sets Zero/Negative.
pub open spec fn spec_ldx(s: SystemModel, opcode: u8) -> SystemModel {
    let (value, s1) = spec_operand_value(s, value_mode(opcode)->Some_0);
    SystemModel {
        registers: Registers {
            x_index: value,
            status_register: spec_set_nz(s1.registers.status_register, value),
            ..s1.registers
        },
        ..s1
    }
}

/// LDY: loads the Y index from the operand and sets Zero/Negative.
pub open spec fn spec_ldy(s: SystemModel, opcode: u8) -> SystemModel {
    let (value, s1) = spec_operand_value(s, value_mode(opcode)->Some_0);
    SystemModel {
        registers: Registers {
            y_index: value,
            status_register: spec_set_nz(s1.registers.status_register, value),
            ..s1.registers
        },
        ..s1
    }
}

/// STA/STX/STY: stores `value_of(registers)` at the resolved address; no
/// flag changes.
pub open spec fn spec_store(s: SystemModel, opcode: u8, value: u8) -> SystemModel {
    let (address, s1) = spec_operand_address(s, address_mode(opcode)->Some_0);
    match address {
        Some(a) => SystemModel { memory: mem_write(s1.memory, a, value), ..s1 },
        None => s1,
    }
}

/// Shift and rotate instructions: the operand read from the resolved
/// address (or the accumulator when there is none), the shifted result
/// written back to the same place, Carry taking the bit shifted out, and
/// Zero/Negative following the result. Rotates feed the old Carry into the
/// vacated bit.
pub open spec fn spec_shift(s: SystemModel, opcode: u8, result: u8, carry_out: bool) -> SystemModel {
    let (address, s1) = spec_operand_address(s, address_mode(opcode)->Some_0);
    let status = spec_set_nz(
        spec_status_write(s1.registers.status_register, Flag::Carry, carry_out),
        result,
    );
    match address {
        Some(a) => SystemModel {
            registers: Registers { status_register: status, ..s1.registers },
            memory: mem_write(s1.memory, a, result),
        },
        None => SystemModel {
            registers: Registers { accumulator: result, status_register: status, ..s1.registers },
            ..s1
        },
    }
}

/// The byte a shift or rotate operates on: the resolved address's
/// contents, or the accumulator for the no-address variant.
pub open spec fn spec_shift_operand(s: SystemModel, opcode: u8) -> u8 {
    let (address, s1) = spec_operand_address(s, address_mode(opcode)->Some_0);
    match address {
        Some(a) => mem_read(s1.memory, a),
        None => s1.registers.accumulator,
    }
}

/// ASL: shift left; bit 7 becomes Carry, bit 0 becomes 0.
pub open spec fn spec_asl(s: SystemModel, opcode: u8) -> SystemModel {
    let value = spec_shift_operand(s, opcode);
    spec_shift(s, opcode, (((value * 2) % 256) as u8), value & 0x80 != 0)
}

/// LSR: shift right; bit 0 becomes Carry, bit 7 becomes 0.
pub open spec fn spec_lsr(s: SystemModel, opcode: u8) -> SystemModel {
    let value = spec_shift_operand(s, opcode);
    spec_shift(s, opcode, (value / 2) as u8, value & 0x01 != 0)
}

/// ROL: rotate left through Carry.
pub open spec fn spec_rol(s: SystemModel, opcode: u8) -> SystemModel {
    let value = spec_shift_operand(s, opcode);
    let carry_in: u8 = if flag_set(s.registers.status_register, Flag::Carry) {
        1
    } else {
        0
    };
    spec_shift(s, opcode, (((value * 2 + carry_in) % 256) as u8), value & 0x80 != 0)
}

/// ROR: rotate right through Carry.
pub open spec fn spec_ror(s: SystemModel, opcode: u8) -> SystemModel {
    let value = spec_shift_operand(s, opcode);
    let carry_in: u8 = if flag_set(s.registers.status_register, Flag::Carry) {
        1
    } else {
        0
    };
    spec_shift(s, opcode, ((value / 2 + carry_in * 128) as u8), value & 0x01 != 0)
}

/// AND: bitwise and of the accumulator and the operand; Zero/Negative
/// follow the result.
pub open spec fn spec_and(s: SystemModel, opcode: u8) -> SystemModel {
    let (value, s1) = spec_operand_value(s, value_mode(opcode)->Some_0);
    let result = s1.registers.accumulator & value;
    SystemModel {
        registers: Registers {
            accumulator: result,
            status_register: spec_set_nz(s1.registers.status_register, result),
            ..s1.registers
        },
        ..s1
    }
}

/// EOR: bitwise exclusive-or of the accumulator and the operand.
pub open spec fn spec_eor(s: SystemModel, opcode: u8) -> SystemModel {
    let (value, s1) = spec_operand_value(s, value_mode(opcode)->Some_0);
    let result = s1.registers.accumulator ^ value;
    SystemModel {
        registers: Registers {
            accumulator: result,
            status_register: spec_set_nz(s1.registers.status_register, result),
            ..s1.registers
        },
        ..s1
    }
}

/// ORA: bitwise or of the accumulator and the operand.
pub open spec fn spec_ora(s: SystemModel, opcode: u8) -> SystemModel {
    let (value, s1) = spec_operand_value(s, value_mode(opcode)->Some_0);
    let result = s1.registers.accumulator | value;
    SystemModel {
        registers: Registers {
            accumulator: result,
            status_register: spec_set_nz(s1.registers.status_register, result),
            ..s1.registers
        },
        ..s1
    }
}

/// BIT: Negative and Overflow come straight from bits 7 and 6 of the
/// operand, Zero from whether the operand masked with the accumulator is
/// all zero; the accumulator itself is untouched.
pub open spec fn spec_bit(s: SystemModel, opcode: u8) -> SystemModel {
    let (value, s1) = spec_operand_value(s, value_mode(opcode)->Some_0);
    let status = spec_status_write(
        spec_status_write(
            spec_status_write(s1.registers.status_register, Flag::Negative, value & 0x80 != 0),
            Flag::Overflow,
            value & 0x40 != 0,
        ),
        Flag::Zero,
        value & s1.registers.accumulator == 0,
    );
    SystemModel { registers: Registers { status_register: status, ..s1.registers }, ..s1 }
}

/// ADC: add-with-carry of the operand into the accumulator.
pub open spec fn spec_adc(s: SystemModel, opcode: u8) -> SystemModel {
    let (value, s1) = spec_operand_value(s, value_mode(opcode)->Some_0);
    SystemModel { registers: spec_alu_add(s1.registers, value), ..s1 }
}

/// SBC: subtract-with-borrow, the add of the operand's bitwise negation.
pub open spec fn spec_sbc(s: SystemModel, opcode: u8) -> SystemModel {
    let (value, s1) = spec_operand_value(s, value_mode(opcode)->Some_0);
    SystemModel { registers: spec_alu_add(s1.registers, !value), ..s1 }
}

/// CMP/CPX/CPY: compares `register` against the operand without mutating
/// any data register.
pub open spec fn spec_compare(s: SystemModel, opcode: u8, register: u8) -> SystemModel {
    let (value, s1) = spec_operand_value(s, value_mode(opcode)->Some_0);
    SystemModel { registers: spec_alu_compare(s1.registers, register, value), ..s1 }
}

/// INC/DEC: read-modify-write of the resolved address with an 8-bit
/// wrapping add of `delta`; Zero/Negative follow the result.
pub open spec fn spec_step_memory(s: SystemModel, opcode: u8, delta: u8) -> SystemModel {
    let (address, s1) = spec_operand_address(s, address_mode(opcode)->Some_0);
    let a = address->Some_0;
    let result = (((mem_read(s1.memory, a) + delta) % 256) as u8);
    SystemModel {
        registers: Registers {
            status_register: spec_set_nz(s1.registers.status_register, result),
            ..s1.registers
        },
        memory: mem_write(s1.memory, a, result),
    }
}

/// INX/INY/DEX/DEY: an 8-bit wrapping step of an index register;
/// Zero/Negative follow the result.
pub open spec fn spec_step_register(r: Registers, value: u8, delta: u8) -> (u8, u8) {
    let result = (((value + delta) % 256) as u8);
    (result, spec_set_nz(r.status_register, result))
}

/// BRK: advances the program counter past the signature byte, then enters
/// the software-interrupt sequence (Break set in the pushed status byte).
pub open spec fn spec_brk(s: SystemModel) -> SystemModel {
    spec_interrupt(
        SystemModel {
            registers: Registers {
                program_counter: spec_pc_increment(s.registers.program_counter),
                ..s.registers
            },
            ..s
        },
        true,
    )
}

/// JMP: loads the program counter from an absolute target, or from the
/// word stored at an indirect target.
pub open spec fn spec_jmp(s: SystemModel, opcode: u8) -> SystemModel {
    let (base, s1) = spec_fetch_word(s);
    let target = if opcode == 0x6c {
        spec_read_word(s1, base)
    } else {
        base
    };
    SystemModel { registers: Registers { program_counter: target, ..s1.registers }, ..s1 }
}

/// JSR: pushes the address of the last byte of the instruction (the
/// program counter minus one, after both operand bytes were fetched), high
/// byte then low byte, and jumps to the absolute target.
pub open spec fn spec_jsr(s: SystemModel) -> SystemModel {
    let (target, s1) = spec_fetch_word(s);
    let return_to = ((s1.registers.program_counter + 0xffff) % 0x10000) as u16;
    let s2 = spec_push(s1, (return_to / 256) as u8);
    let s3 = spec_push(s2, (return_to % 256) as u8);
    SystemModel { registers: Registers { program_counter: target, ..s3.registers }, ..s3 }
}

/// RTS: pulls the return address low byte then high byte (reversing JSR's
/// push order) and resumes one past it.
pub open spec fn spec_rts(s: SystemModel) -> SystemModel {
    let (low, s1) = spec_pop(s);
    let (high, s2) = spec_pop(s1);
    let target = (((high * 256 + low) + 1) % 0x10000) as u16;
    SystemModel { registers: Registers { program_counter: target, ..s2.registers }, ..s2 }
}

/// RTI: pulls the status byte, then the return address low byte then high
/// byte, restoring exactly what interrupt entry saved; the reserved status
/// bit reads as set.
pub open spec fn spec_rti(s: SystemModel) -> SystemModel {
    let (status, s1) = spec_pop(s);
    let (low, s2) = spec_pop(s1);
    let (high, s3) = spec_pop(s2);
    SystemModel {
        registers: Registers {
            status_register: status | 0x20,
            program_counter: ((high * 256 + low) as u16),
            ..s3.registers
        },
        ..s3
    }
}

/// Whether a branch opcode's flag condition holds of the status byte.
pub open spec fn branch_taken(status: u8, opcode: u8) -> bool {
    match opcode {
        0x90 => !flag_set(status, Flag::Carry),
        0xb0 => flag_set(status, Flag::Carry),
        0xf0 => flag_set(status, Flag::Zero),
        0x30 => flag_set(status, Flag::Negative),
        0xd0 => !flag_set(status, Flag::Zero),
        0x10 => !flag_set(status, Flag::Negative),
        0x50 => !flag_set(status, Flag::Overflow),
        0x70 => flag_set(status, Flag::Overflow),
        _ => false,
    }
}

/// Branches: the one-byte signed displacement is always consumed, so the
/// program counter always advances past the operand; when the opcode's
/// condition holds the displacement is then added with wraparound.
pub open spec fn spec_branch(s: SystemModel, opcode: u8) -> SystemModel {
    let (offset, s1) = spec_fetch(s);
    if branch_taken(s1.registers.status_register, opcode) {
        SystemModel {
            registers: Registers {
                program_counter: spec_pc_offset(s1.registers.program_counter, offset as i8),
                ..s1.registers
            },
            ..s1
        }
    } else {
        s1
    }
}

/// The single flag a flag set/clear opcode names.
pub open spec fn flag_operand(opcode: u8) -> Flag {
    match opcode {
        0x18 | 0x38 => Flag::Carry,
        0xd8 | 0xf8 => Flag::Decimal,
        0x58 | 0x78 => Flag::Interrupt,
        _ => Flag::Overflow,
    }
}

/// Flag set/clear instructions: exactly one named flag changes.
pub open spec fn spec_write_flag(s: SystemModel, opcode: u8, value: bool) -> SystemModel {
    SystemModel {
        registers: Registers {
            status_register: spec_status_write(
                s.registers.status_register,
                flag_operand(opcode),
                value,
            ),
            ..s.registers
        },
        ..s
    }
}

/// The machine after one recognized opcode, or `None` for a dispatch
/// fault on an unassigned byte (which mutates nothing).
pub open spec fn spec_execute(s: SystemModel, opcode: u8) -> Option<SystemModel> {
    match opcode {
        0xa1 | 0xa5 | 0xa9 | 0xad | 0xb1 | 0xb5 | 0xb9 | 0xbd => Some(spec_lda(s, opcode)),
        0xa2 | 0xa6 | 0xae | 0xb6 | 0xbe => Some(spec_ldx(s, opcode)),
        0xa0 | 0xa4 | 0xac | 0xb4 | 0xbc => Some(spec_ldy(s, opcode)),
        0x81 | 0x85 | 0x8d | 0x91 | 0x95 | 0x99 | 0x9d => Some(
            spec_store(s, opcode, s.registers.accumulator),
        ),
        0x86 | 0x8e | 0x96 => Some(spec_store(s, opcode, s.registers.x_index)),
        0x84 | 0x8c | 0x94 => Some(spec_store(s, opcode, s.registers.y_index)),
        0xaa => Some(
            SystemModel {
                registers: Registers {
                    x_index: s.registers.accumulator,
                    status_register: spec_set_nz(
                        s.registers.status_register,
                        s.registers.accumulator,
                    ),
                    ..s.registers
                },
                ..s
            },
        ),
        0xa8 => Some(
            SystemModel {
                registers: Registers {
                    y_index: s.registers.accumulator,
                    status_register: spec_set_nz(
                        s.registers.status_register,
                        s.registers.accumulator,
                    ),
                    ..s.registers
                },
                ..s
            },
        ),
        0xba => Some(
            SystemModel {
                registers: Registers {
                    x_index: s.registers.stack_pointer,
                    status_register: spec_set_nz(
                        s.registers.status_register,
                        s.registers.stack_pointer,
                    ),
                    ..s.registers
                },
                ..s
            },
        ),
        0x8a => Some(
            SystemModel {
                registers: Registers {
                    accumulator: s.registers.x_index,
                    status_register: spec_set_nz(s.registers.status_register, s.registers.x_index),
                    ..s.registers
                },
                ..s
            },
        ),
        0x9a => Some(
            SystemModel {
                registers: Registers { stack_pointer: s.registers.x_index, ..s.registers },
                ..s
            },
        ),
        0x98 => Some(
            SystemModel {
                registers: Registers {
                    accumulator: s.registers.y_index,
                    status_register: spec_set_nz(s.registers.status_register, s.registers.y_index),
                    ..s.registers
                },
                ..s
            },
        ),
        0x48 => Some(spec_push(s, s.registers.accumulator)),
        0x08 => Some(spec_push(s, s.registers.status_register)),
        0x68 => Some(
            ({
                let (value, s1) = spec_pop(s);
                SystemModel { registers: Registers { accumulator: value, ..s1.registers }, ..s1 }
            }),
        ),
        0x28 => Some(
            ({
                let (value, s1) = spec_pop(s);
                SystemModel {
                    registers: Registers { status_register: value | 0x20, ..s1.registers },
                    ..s1
                }
            }),
        ),
        0x06 | 0x0a | 0x0e | 0x16 | 0x1e => Some(spec_asl(s, opcode)),
        0x46 | 0x4a | 0x4e | 0x56 | 0x5e => Some(spec_lsr(s, opcode)),
        0x26 | 0x2a | 0x2e | 0x36 | 0x3e => Some(spec_rol(s, opcode)),
        0x66 | 0x6a | 0x6e | 0x76 | 0x7e => Some(spec_ror(s, opcode)),
        0x21 | 0x25 | 0x29 | 0x2d | 0x31 | 0x35 | 0x39 | 0x3d => Some(spec_and(s, opcode)),
        0x24 | 0x2c => Some(spec_bit(s, opcode)),
        0x41 | 0x45 | 0x49 | 0x4d | 0x51 | 0x55 | 0x59 | 0x5d => Some(spec_eor(s, opcode)),
        0x01 | 0x05 | 0x09 | 0x0d | 0x11 | 0x15 | 0x19 | 0x1d => Some(spec_ora(s, opcode)),
        0x61 | 0x65 | 0x69 | 0x6d | 0x71 | 0x75 | 0x79 | 0x7d => Some(spec_adc(s, opcode)),
        0xc1 | 0xc5 | 0xc9 | 0xcd | 0xd1 | 0xd5 | 0xd9 | 0xdd => Some(
            spec_compare(s, opcode, s.registers.accumulator),
        ),
        0xe0 | 0xe4 | 0xec => Some(spec_compare(s, opcode, s.registers.x_index)),
        0xc0 | 0xc4 | 0xcc => Some(spec_compare(s, opcode, s.registers.y_index)),
        0xe1 | 0xe5 | 0xe9 | 0xed | 0xf1 | 0xf5 | 0xf9 | 0xfd => Some(spec_sbc(s, opcode)),
        0xc6 | 0xce | 0xd6 | 0xde => Some(spec_step_memory(s, opcode, 255)),
        0xe6 | 0xee | 0xf6 | 0xfe => Some(spec_step_memory(s, opcode, 1)),
        0xca => Some(
            ({
                let (result, status) = spec_step_register(s.registers, s.registers.x_index, 255);
                SystemModel {
                    registers: Registers {
                        x_index: result,
                        status_register: status,
                        ..s.registers
                    },
                    ..s
                }
            }),
        ),
        0x88 => Some(
            ({
                let (result, status) = spec_step_register(s.registers, s.registers.y_index, 255);
                SystemModel {
                    registers: Registers {
                        y_index: result,
                        status_register: status,
                        ..s.registers
                    },
                    ..s
                }
            }),
        ),
        0xe8 => Some(
            ({
                let (result, status) = spec_step_register(s.registers, s.registers.x_index, 1);
                SystemModel {
                    registers: Registers {
                        x_index: result,
                        status_register: status,
                        ..s.registers
                    },
                    ..s
                }
            }),
        ),
        0xc8 => Some(
            ({
                let (result, status) = spec_step_register(s.registers, s.registers.y_index, 1);
                SystemModel {
                    registers: Registers {
                        y_index: result,
                        status_register: status,
                        ..s.registers
                    },
                    ..s
                }
            }),
        ),
        0x00 => Some(spec_brk(s)),
        0x4c | 0x6c => Some(spec_jmp(s, opcode)),
        0x20 => Some(spec_jsr(s)),
        0x40 => Some(spec_rti(s)),
        0x60 => Some(spec_rts(s)),
        0x90 | 0xb0 | 0xf0 | 0x30 | 0xd0 | 0x10 | 0x50 | 0x70 => Some(spec_branch(s, opcode)),
        0x18 | 0xd8 | 0x58 | 0xb8 => Some(spec_write_flag(s, opcode, false)),
        0x38 | 0xf8 | 0x78 => Some(spec_write_flag(s, opcode, true)),
        0xea => Some(s),
        _ => None,
    }
}
impl System {
    fn exec_lda(&mut self, opcode: u8)
        requires
            value_mode(opcode) is Some,
        ensures
            final(self)@ == spec_lda(old(self)@, opcode),
    {
        let value = self.fetch_operand_value(value_mode_of(opcode));
        let mut registers = self.registers;
        registers.accumulator = value;
        registers.status_set_nz(value);
        self.registers = registers;
    }

    fn exec_ldx(&mut self, opcode: u8)
        requires
            value_mode(opcode) is Some,
        ensures
            final(self)@ == spec_ldx(old(self)@, opcode),
    {
        let value = self.fetch_operand_value(value_mode_of(opcode));
        let mut registers = self.registers;
        registers.x_index = value;
        registers.status_set_nz(value);
        self.registers = registers;
    }

    fn exec_ldy(&mut self, opcode: u8)
        requires
            value_mode(opcode) is Some,
        ensures
            final(self)@ == spec_ldy(old(self)@, opcode),
    {
        let value = self.fetch_operand_value(value_mode_of(opcode));
        let mut registers = self.registers;
        registers.y_index = value;
        registers.status_set_nz(value);
        self.registers = registers;
    }

    /// STA/STX/STY: `value` is the register read before the operand bytes
    /// are consumed.
    fn exec_store(&mut self, opcode: u8, value: u8)
        requires
            address_mode(opcode) is Some,
        ensures
            final(self)@ == spec_store(old(self)@, opcode, value),
    {
        let address = self.fetch_operand_address(address_mode_of(opcode));
        match address {
            Some(a) => self.write(a, value),
            None => (),
        }
    }

    fn exec_asl(&mut self, opcode: u8)
        requires
            address_mode(opcode) is Some,
        ensures
            final(self)@ == spec_asl(old(self)@, opcode),
    {
        let address = self.fetch_operand_address(address_mode_of(opcode));
        let value = match address {
            Some(a) => self.read(a),
            None => self.registers.accumulator,
        };
        let result = ((value as u16 * 2) % 256) as u8;
        let mut registers = self.registers;
        registers.status_write(Flag::Carry, value & 0x80 != 0);
        registers.status_set_nz(result);
        self.registers = registers;
        match address {
            Some(a) => self.write(a, result),
            None => {
                let mut registers = self.registers;
                registers.accumulator = result;
                self.registers = registers;
            },
        }
    }

    fn exec_lsr(&mut self, opcode: u8)
        requires
            address_mode(opcode) is Some,
        ensures
            final(self)@ == spec_lsr(old(self)@, opcode),
    {
        let address = self.fetch_operand_address(address_mode_of(opcode));
        let value = match address {
            Some(a) => self.read(a),
            None => self.registers.accumulator,
        };
        let result = value / 2;
        let mut registers = self.registers;
        registers.status_write(Flag::Carry, value & 0x01 != 0);
        registers.status_set_nz(result);
        self.registers = registers;
        match address {
            Some(a) => self.write(a, result),
            None => {
                let mut registers = self.registers;
                registers.accumulator = result;
                self.registers = registers;
            },
        }
    }

    fn exec_rol(&mut self, opcode: u8)
        requires
            address_mode(opcode) is Some,
        ensures
            final(self)@ == spec_rol(old(self)@, opcode),
    {
        let carry_in: u16 = if self.registers.status_read(Flag::Carry) {
            1
        } else {
            0
        };
        let address = self.fetch_operand_address(address_mode_of(opcode));
        let value = match address {
            Some(a) => self.read(a),
            None => self.registers.accumulator,
        };
        let result = ((value as u16 * 2 + carry_in) % 256) as u8;
        let mut registers = self.registers;
        registers.status_write(Flag::Carry, value & 0x80 != 0);
        registers.status_set_nz(result);
        self.registers = registers;
        match address {
            Some(a) => self.write(a, result),
            None => {
                let mut registers = self.registers;
                registers.accumulator = result;
                self.registers = registers;
            },
        }
    }

    fn exec_ror(&mut self, opcode: u8)
        requires
            address_mode(opcode) is Some,
        ensures
            final(self)@ == spec_ror(old(self)@, opcode),
    {
        let carry_in: u8 = if self.registers.status_read(Flag::Carry) {
            1
        } else {
            0
        };
        let address = self.fetch_operand_address(address_mode_of(opcode));
        let value = match address {
            Some(a) => self.read(a),
            None => self.registers.accumulator,
        };
        let result = value / 2 + carry_in * 128;
        let mut registers = self.registers;
        registers.status_write(Flag::Carry, value & 0x01 != 0);
        registers.status_set_nz(result);
        self.registers = registers;
        match address {
            Some(a) => self.write(a, result),
            None => {
                let mut registers = self.registers;
                registers.accumulator = result;
                self.registers = registers;
            },
        }
    }

    fn exec_and(&mut self, opcode: u8)
        requires
            value_mode(opcode) is Some,
        ensures
            final(self)@ == spec_and(old(self)@, opcode),
    {
        let value = self.fetch_operand_value(value_mode_of(opcode));
        let mut registers = self.registers;
        registers.accumulator = registers.accumulator & value;
        let result = registers.accumulator;
        registers.status_set_nz(result);
        self.registers = registers;
    }

    fn exec_eor(&mut self, opcode: u8)
        requires
            value_mode(opcode) is Some,
        ensures
            final(self)@ == spec_eor(old(self)@, opcode),
    {
        let value = self.fetch_operand_value(value_mode_of(opcode));
        let mut registers = self.registers;
        registers.accumulator = registers.accumulator ^ value;
        let result = registers.accumulator;
        registers.status_set_nz(result);
        self.registers = registers;
    }

    fn exec_ora(&mut self, opcode: u8)
        requires
            value_mode(opcode) is Some,
        ensures
            final(self)@ == spec_ora(old(self)@, opcode),
    {
        let value = self.fetch_operand_value(value_mode_of(opcode));
        let mut registers = self.registers;
        registers.accumulator = registers.accumulator | value;
        let result = registers.accumulator;
        registers.status_set_nz(result);
        self.registers = registers;
    }

    fn exec_bit(&mut self, opcode: u8)
        requires
            value_mode(opcode) is Some,
        ensures
            final(self)@ == spec_bit(old(self)@, opcode),
    {
        let value = self.fetch_operand_value(value_mode_of(opcode));
        let mut registers = self.registers;
        registers.status_write(Flag::Negative, value & 0x80 != 0);
        registers.status_write(Flag::Overflow, value & 0x40 != 0);
        let masked = value & registers.accumulator;
        registers.status_write(Flag::Zero, masked == 0);
        self.registers = registers;
    }

    fn exec_adc(&mut self, opcode: u8)
        requires
            value_mode(opcode) is Some,
        ensures
            final(self)@ == spec_adc(old(self)@, opcode),
    {
        let value = self.fetch_operand_value(value_mode_of(opcode));
        let mut registers = self.registers;
        registers.alu_add(value);
        self.registers = registers;
    }

    fn exec_sbc(&mut self, opcode: u8)
        requires
            value_mode(opcode) is Some,
        ensures
            final(self)@ == spec_sbc(old(self)@, opcode),
    {
        let value = self.fetch_operand_value(value_mode_of(opcode));
        let mut registers = self.registers;
        registers.alu_subtract(value);
        self.registers = registers;
    }

    /// CMP/CPX/CPY: `register` is the register read before the operand
    /// bytes are consumed.
    fn exec_compare(&mut self, opcode: u8, register: u8)
        requires
            value_mode(opcode) is Some,
        ensures
            final(self)@ == spec_compare(old(self)@, opcode, register),
    {
        let value = self.fetch_operand_value(value_mode_of(opcode));
        let mut registers = self.registers;
        registers.alu_compare(register, value);
        self.registers = registers;
    }

    /// INC/DEC: `delta` is 1 or the 8-bit two's complement of 1.
    fn exec_step_memory(&mut self, opcode: u8, delta: u8)
        requires
            address_mode(opcode) is Some,
            !(address_mode(opcode)->Some_0 is Accumulator),
            !(address_mode(opcode)->Some_0 is Immediate),
        ensures
            final(self)@ == spec_step_memory(old(self)@, opcode, delta),
    {
        let address = match self.fetch_operand_address(address_mode_of(opcode)) {
            Some(a) => a,
            None => 0,
        };
        let value = self.read(address);
        let result = ((value as u16 + delta as u16) % 256) as u8;
        let mut registers = self.registers;
        registers.status_set_nz(result);
        self.registers = registers;
        self.write(address, result);
    }

    fn exec_brk(&mut self)
        ensures
            final(self)@ == spec_brk(old(self)@),
    {
        let mut registers = self.registers;
        registers.pc_increment();
        self.registers = registers;
        self.interrupt(true);
    }

    fn exec_jmp(&mut self, opcode: u8)
        ensures
            final(self)@ == spec_jmp(old(self)@, opcode),
    {
        let base = self.fetch_word();
        let target = if opcode == 0x6c {
            self.read_word(base)
        } else {
            base
        };
        let mut registers = self.registers;
        registers.pc_load(target);
        self.registers = registers;
    }

    fn exec_jsr(&mut self)
        ensures
            final(self)@ == spec_jsr(old(self)@),
    {
        let target = self.fetch_word();
        let return_to = ((self.registers.program_counter as u32 + 0xffff) % 0x10000) as u16;
        self.push((return_to / 256) as u8);
        self.push((return_to % 256) as u8);
        let mut registers = self.registers;
        registers.pc_load(target);
        self.registers = registers;
    }

    fn exec_rts(&mut self)
        ensures
            final(self)@ == spec_rts(old(self)@),
    {
        let low = self.pop();
        let high = self.pop();
        let target = ((high as u32 * 256 + low as u32 + 1) % 0x10000) as u16;
        let mut registers = self.registers;
        registers.pc_load(target);
        self.registers = registers;
    }

    fn exec_rti(&mut self)
        ensures
            final(self)@ == spec_rti(old(self)@),
    {
        let status = self.pop();
        let low = self.pop();
        let high = self.pop();
        let mut registers = self.registers;
        registers.status_load(status);
        registers.pc_load(high as u16 * 256 + low as u16);
        self.registers = registers;
    }

    fn exec_branch(&mut self, opcode: u8)
        requires
            opcode == 0x90 || opcode == 0xb0 || opcode == 0xf0 || opcode == 0x30 || opcode == 0xd0
                || opcode == 0x10 || opcode == 0x50 || opcode == 0x70,
        ensures
            final(self)@ == spec_branch(old(self)@, opcode),
    {
        let offset = self.fetch() as i8;
        let condition = match opcode {
            0x90 => !self.registers.status_read(Flag::Carry),  // BCC
            0xb0 => self.registers.status_read(Flag::Carry),  // BCS
            0xf0 => self.registers.status_read(Flag::Zero),  // BEQ
            0x30 => self.registers.status_read(Flag::Negative),  // BMI
            0xd0 => !self.registers.status_read(Flag::Zero),  // BNE
            0x10 => !self.registers.status_read(Flag::Negative),  // BPL
            0x50 => !self.registers.status_read(Flag::Overflow),  // BVC
            _ => self.registers.status_read(Flag::Overflow),  // BVS
        };
        if condition {
            let mut registers = self.registers;
            registers.pc_offset(offset);
            self.registers = registers;
        }
    }
}

/// Branch instructions always consume their one-byte operand: whatever
/// the flags hold, the program counter advances past the displacement
/// byte, and only when the opcode's condition holds is the displacement
/// then added (with wraparound) on top of that.
pub proof fn lemma_branch_always_advances(s: SystemModel, opcode: u8)
    requires
        opcode == 0x90 || opcode == 0xb0 || opcode == 0xf0 || opcode == 0x30 || opcode == 0xd0
            || opcode == 0x10 || opcode == 0x50 || opcode == 0x70,
    ensures
        spec_execute(s, opcode) is Some,
        ({
            let advanced = spec_pc_increment(s.registers.program_counter);
            let displacement = mem_read(s.memory, s.registers.program_counter);
            let taken = branch_taken(s.registers.status_register, opcode);
            let pc = (spec_execute(s, opcode)->Some_0).registers.program_counter;
            &&& !taken ==> pc == advanced
            &&& taken ==> pc == spec_pc_offset(advanced, displacement as i8)
        }),
{
}

/// JSR followed at once by RTS resumes execution right after the 3-byte
/// JSR instruction: with the program counter one past the JSR opcode (as
/// the driver leaves it) and the two stack slots the call uses landing
/// their writes, the counter after the return is the one before the JSR's
/// operand bytes, plus two.
pub proof fn lemma_jsr_rts_round_trip(s: SystemModel)
    requires
        writable_at(s.memory, ((0x100 + s.registers.stack_pointer) as u16)),
        writable_at(
            s.memory,
            ((0x100 + ((s.registers.stack_pointer + 255) % 256)) as u16),
        ),
    ensures
        spec_rts(spec_jsr(s)).registers.program_counter == ((s.registers.program_counter + 2)
            % 0x10000) as u16,
{
    let (target, s1) = spec_fetch_word(s);
    let return_to = ((s1.registers.program_counter + 0xffff) % 0x10000) as u16;
    let high = (return_to / 256) as u8;
    let low = (return_to % 256) as u8;
    let sp0 = s.registers.stack_pointer;
    let sp1 = ((sp0 + 255) % 256) as u8;
    let slot_first = (0x100 + sp0) as u16;
    let slot_second = (0x100 + sp1) as u16;
    assert(slot_first != slot_second);
    let m1 = mem_write(s.memory, slot_first, high);
    let m2 = mem_write(m1, slot_second, low);
    lemma_mem_write_read(s.memory, slot_first, slot_second, high);
    lemma_mem_write_read(m1, slot_second, slot_first, low);
    assert(mem_read(m2, slot_second) == low);
    assert(mem_read(m2, slot_first) == high);
    assert(high * 256 + low == return_to);
    assert((((sp1 + 255) % 256) + 1) % 256 == sp1);
    assert((sp1 + 1) % 256 == sp0);
    assert((return_to + 1) % 0x10000 == s1.registers.program_counter);
    assert(s1.registers.program_counter == (s.registers.program_counter + 2) % 0x10000);
}

/// The reserved status bit is always read as set: once it holds, no
/// recognized instruction's effect clears it. Flag writes and
/// Zero/Negative recomputation never touch the bit, and the wholesale
/// status loads of PLP and RTI force it on.
#[verifier::rlimit(100)]
#[verifier::spinoff_prover]
pub proof fn lemma_execute_keeps_reserved_bit(s: SystemModel, opcode: u8)
    requires
        s.registers.status_register & 0x20 != 0,
    ensures
        (match spec_execute(s, opcode) {
            Some(s1) => s1.registers.status_register & 0x20 != 0,
            None => true,
        }),
{
    broadcast use crate::registers::lemma_status_write_keeps_reserved;
    broadcast use crate::registers::lemma_set_nz_keeps_reserved;

    if opcode == 0x28 || opcode == 0x40 {
        let (value, _s1) = spec_pop(s);
        assert((value | 0x20) & 0x20 != 0) by (bit_vector);
    }
}

/// A byte no recognized instruction covers is a dispatch fault; the
/// dispatcher's contract then guarantees that no register and no memory
/// changes for that step.
pub proof fn lemma_unassigned_opcode_faults(s: SystemModel)
    ensures
        spec_execute(s, 0xff) is None,
{
}

/// The opcode dispatcher: decodes one opcode and performs its effect on
/// the machine's registers and memory.
pub trait Execute {
    /// Executes one already-fetched opcode byte; an unassigned byte is a
    /// dispatch fault that carries the byte and mutates nothing.
    fn execute(&mut self, opcode: u8) -> Result<(), Fault>;
}

impl Execute for System {
    #[verifier::rlimit(100)]
    #[verifier::spinoff_prover]
    fn execute(&mut self, opcode: u8) -> (r: Result<(), Fault>)
        ensures
            (match spec_execute(old(self)@, opcode) {
                Some(s1) => r == Ok::<(), Fault>(()) && final(self)@ == s1,
                None => r == Err::<(), Fault>(Fault::UnimplementedOpcode(opcode)) && final(self)@
                    == old(self)@,
            }),
    {
        match opcode {
            0xa1 | 0xa5 | 0xa9 | 0xad | 0xb1 | 0xb5 | 0xb9 | 0xbd => {
                // LDA
                self.exec_lda(opcode);
                Ok(())
            },
            0xa2 | 0xa6 | 0xae | 0xb6 | 0xbe => {
                // LDX
                self.exec_ldx(opcode);
                Ok(())
            },
            0xa0 | 0xa4 | 0xac | 0xb4 | 0xbc => {
                // LDY
                self.exec_ldy(opcode);
                Ok(())
            },
            0x81 | 0x85 | 0x8d | 0x91 | 0x95 | 0x99 | 0x9d => {
                // STA
                let value = self.registers.accumulator;
                self.exec_store(opcode, value);
                Ok(())
            },
            0x86 | 0x8e | 0x96 => {
                // STX
                let value = self.registers.x_index;
                self.exec_store(opcode, value);
                Ok(())
            },
            0x84 | 0x8c | 0x94 => {
                // STY
                let value = self.registers.y_index;
                self.exec_store(opcode, value);
                Ok(())
            },
            0xaa => {
                // TAX
                let mut registers = self.registers;
                registers.x_index = registers.accumulator;
                registers.status_set_nz(registers.accumulator);
                self.registers = registers;
                Ok(())
            },
            0xa8 => {
                // TAY
                let mut registers = self.registers;
                registers.y_index = registers.accumulator;
                registers.status_set_nz(registers.accumulator);
                self.registers = registers;
                Ok(())
            },
            0xba => {
                // TSX
                let mut registers = self.registers;
                registers.x_index = registers.stack_pointer;
                registers.status_set_nz(registers.stack_pointer);
                self.registers = registers;
                Ok(())
            },
            0x8a => {
                // TXA
                let mut registers = self.registers;
                registers.accumulator = registers.x_index;
                registers.status_set_nz(registers.x_index);
                self.registers = registers;
                Ok(())
            },
            0x9a => {
                // TXS (the one transfer that leaves the flags alone)
                let mut registers = self.registers;
                registers.stack_pointer = registers.x_index;
                self.registers = registers;
                Ok(())
            },
            0x98 => {
                // TYA
                let mut registers = self.registers;
                registers.accumulator = registers.y_index;
                registers.status_set_nz(registers.y_index);
                self.registers = registers;
                Ok(())
            },
            0x48 => {
                // PHA
                let value = self.registers.accumulator;
                self.push(value);
                Ok(())
            },
            0x08 => {
                // PHP
                let value = self.registers.status_register;
                self.push(value);
                Ok(())
            },
            0x68 => {
                // PLA
                let value = self.pop();
                let mut registers = self.registers;
                registers.accumulator = value;
                self.registers = registers;
                Ok(())
            },
            0x28 => {
                // PLP
                let value = self.pop();
                let mut registers = self.registers;
                registers.status_load(value);
                self.registers = registers;
                Ok(())
            },
            0x06 | 0x0a | 0x0e | 0x16 | 0x1e => {
                // ASL
                self.exec_asl(opcode);
                Ok(())
            },
            0x46 | 0x4a | 0x4e | 0x56 | 0x5e => {
                // LSR
                self.exec_lsr(opcode);
                Ok(())
            },
            0x26 | 0x2a | 0x2e | 0x36 | 0x3e => {
                // ROL
                self.exec_rol(opcode);
                Ok(())
            },
            0x66 | 0x6a | 0x6e | 0x76 | 0x7e => {
                // ROR
                self.exec_ror(opcode);
                Ok(())
            },
            0x21 | 0x25 | 0x29 | 0x2d | 0x31 | 0x35 | 0x39 | 0x3d => {
                // AND
                self.exec_and(opcode);
                Ok(())
            },
            0x24 | 0x2c => {
                // BIT
                self.exec_bit(opcode);
                Ok(())
            },
            0x41 | 0x45 | 0x49 | 0x4d | 0x51 | 0x55 | 0x59 | 0x5d => {
                // EOR
                self.exec_eor(opcode);
                Ok(())
            },
            0x01 | 0x05 | 0x09 | 0x0d | 0x11 | 0x15 | 0x19 | 0x1d => {
                // ORA
                self.exec_ora(opcode);
                Ok(())
            },
            0x61 | 0x65 | 0x69 | 0x6d | 0x71 | 0x75 | 0x79 | 0x7d => {
                // ADC
                self.exec_adc(opcode);
                Ok(())
            },
            0xc1 | 0xc5 | 0xc9 | 0xcd | 0xd1 | 0xd5 | 0xd9 | 0xdd => {
                // CMP
                let register = self.registers.accumulator;
                self.exec_compare(opcode, register);
                Ok(())
            },
            0xe0 | 0xe4 | 0xec => {
                // CPX
                let register = self.registers.x_index;
                self.exec_compare(opcode, register);
                Ok(())
            },
            0xc0 | 0xc4 | 0xcc => {
                // CPY
                let register = self.registers.y_index;
                self.exec_compare(opcode, register);
                Ok(())
            },
            0xe1 | 0xe5 | 0xe9 | 0xed | 0xf1 | 0xf5 | 0xf9 | 0xfd => {
                // SBC
                self.exec_sbc(opcode);
                Ok(())
            },
            0xc6 | 0xce | 0xd6 | 0xde => {
                // DEC
                self.exec_step_memory(opcode, 255);
                Ok(())
            },
            0xe6 | 0xee | 0xf6 | 0xfe => {
                // INC
                self.exec_step_memory(opcode, 1);
                Ok(())
            },
            0xca => {
                // DEX
                let mut registers = self.registers;
                let result = ((registers.x_index as u16 + 255) % 256) as u8;
                registers.x_index = result;
                registers.status_set_nz(result);
                self.registers = registers;
                Ok(())
            },
            0x88 => {
                // DEY
                let mut registers = self.registers;
                let result = ((registers.y_index as u16 + 255) % 256) as u8;
                registers.y_index = result;
                registers.status_set_nz(result);
                self.registers = registers;
                Ok(())
            },
            0xe8 => {
                // INX
                let mut registers = self.registers;
                let result = ((registers.x_index as u16 + 1) % 256) as u8;
                registers.x_index = result;
                registers.status_set_nz(result);
                self.registers = registers;
                Ok(())
            },
            0xc8 => {
                // INY
                let mut registers = self.registers;
                let result = ((registers.y_index as u16 + 1) % 256) as u8;
                registers.y_index = result;
                registers.status_set_nz(result);
                self.registers = registers;
                Ok(())
            },
            0x00 => {
                // BRK
                self.exec_brk();
                Ok(())
            },
            0x4c | 0x6c => {
                // JMP
                self.exec_jmp(opcode);
                Ok(())
            },
            0x20 => {
                // JSR absolute
                self.exec_jsr();
                Ok(())
            },
            0x40 => {
                // RTI
                self.exec_rti();
                Ok(())
            },
            0x60 => {
                // RTS
                self.exec_rts();
                Ok(())
            },
            0x90 | 0xb0 | 0xf0 | 0x30 | 0xd0 | 0x10 | 0x50 | 0x70 => {
                // Branches
                self.exec_branch(opcode);
                Ok(())
            },
            0x18 | 0xd8 | 0x58 | 0xb8 => {
                // CLC / CLD / CLI / CLV
                let flag = match opcode {
                    0x18 => Flag::Carry,
                    0xd8 => Flag::Decimal,
                    0x58 => Flag::Interrupt,
                    _ => Flag::Overflow,
                };
                let mut registers = self.registers;
                registers.status_clear(flag);
                self.registers = registers;
                Ok(())
            },
            0x38 | 0xf8 | 0x78 => {
                // SEC / SED / SEI
                let flag = match opcode {
                    0x38 => Flag::Carry,
                    0xf8 => Flag::Decimal,
                    _ => Flag::Interrupt,
                };
                let mut registers = self.registers;
                registers.status_set(flag);
                self.registers = registers;
                Ok(())
            },
            0xea => {
                // NOP
                Ok(())
            },
            _ => Err(Fault::UnimplementedOpcode(opcode)),
        }
    }
}

} // verus!
