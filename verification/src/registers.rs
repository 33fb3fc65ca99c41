//! The processor's register file: accumulator, index registers, stack
//! pointer, program counter, and the packed status byte, together with the
//! ALU helper operations (add-with-carry, subtract-with-borrow, compare).

use vstd::prelude::*;

verus! {

/// One of the seven processor status flags packed into the status byte.
/// Bit 5 of the byte is reserved and is always read as set.
#[derive(Clone, Copy, Debug, PartialEq, Eq, Structural)]
pub enum Flag {
    Carry,
    Zero,
    Interrupt,
    Decimal,
    Break,
    Overflow,
    Negative,
}

impl Flag {
    /// The flag's bit mask within the packed status byte.
    pub open spec fn spec_mask(self) -> u8 {
        match self {
            Flag::Carry => 0x01,
            Flag::Zero => 0x02,
            Flag::Interrupt => 0x04,
            Flag::Decimal => 0x08,
            Flag::Break => 0x10,
            Flag::Overflow => 0x40,
            Flag::Negative => 0x80,
        }
    }

    #[verifier::when_used_as_spec(spec_mask)]
    pub fn mask(self) -> (r: u8)
        ensures
            r == self.spec_mask(),
    {
        match self {
            Flag::Carry => 0x01,
            Flag::Zero => 0x02,
            Flag::Interrupt => 0x04,
            Flag::Decimal => 0x08,
            Flag::Break => 0x10,
            Flag::Overflow => 0x40,
            Flag::Negative => 0x80,
        }
    }
}

/// True when `f` is set in the packed status byte `status`.
pub open spec fn flag_set(status: u8, f: Flag) -> bool {
    status & f.spec_mask() != 0
}

/// The status byte after writing `value` into flag `f`.
pub open spec fn spec_status_write(status: u8, f: Flag, value: bool) -> u8 {
    if value {
        status | f.spec_mask()
    } else {
        status & !f.spec_mask()
    }
}

/// The status byte after recomputing Zero and Negative from `value`:
/// Zero iff `value == 0`, Negative iff bit 7 of `value` is set; all other
/// flags keep their previous state.
pub open spec fn spec_set_nz(status: u8, value: u8) -> u8 {
    (status & 0x7d) | (if value == 0 { 0x02u8 } else { 0u8 }) | (value & 0x80)
}

/// The signed reading of an 8-bit register value (two's complement).
pub open spec fn signed(v: u8) -> int {
    if v < 0x80 {
        v as int
    } else {
        v - 256
    }
}

/// Bit-level facts behind `spec_status_write`: writing through a flag's
/// mask sets or clears exactly that bit.
proof fn lemma_mask_write_bits(st: u8, m: u8, n: u8, v: bool)
    by (bit_vector)
    requires
        m == 0x01 || m == 0x02 || m == 0x04 || m == 0x08 || m == 0x10 || m == 0x40 || m == 0x80,
        n == 0x01 || n == 0x02 || n == 0x04 || n == 0x08 || n == 0x10 || n == 0x20 || n == 0x40
            || n == 0x80,
        m != n,
    ensures
        ((if v {
            st | m
        } else {
            st & !m
        }) & m != 0) == v,
        ((if v {
            st | m
        } else {
            st & !m
        }) & n != 0) == (st & n != 0),
{
}

/// Bit-level facts behind `spec_set_nz`: the Zero and Negative bits follow
/// the value and every other bit of the status byte is untouched.
proof fn lemma_set_nz_bits(st: u8, v: u8, zero_bit: u8)
    by (bit_vector)
    requires
        zero_bit == 0x02 || zero_bit == 0,
        (zero_bit == 0x02) == (v == 0),
    ensures
        (((st & 0x7d) | zero_bit | (v & 0x80)) & 0x02 != 0) == (v == 0),
        (((st & 0x7d) | zero_bit | (v & 0x80)) & 0x80 != 0) == (v & 0x80 != 0),
        ((st & 0x7d) | zero_bit | (v & 0x80)) & 0x01 == st & 0x01,
        ((st & 0x7d) | zero_bit | (v & 0x80)) & 0x04 == st & 0x04,
        ((st & 0x7d) | zero_bit | (v & 0x80)) & 0x08 == st & 0x08,
        ((st & 0x7d) | zero_bit | (v & 0x80)) & 0x10 == st & 0x10,
        ((st & 0x7d) | zero_bit | (v & 0x80)) & 0x20 == st & 0x20,
        ((st & 0x7d) | zero_bit | (v & 0x80)) & 0x40 == st & 0x40,
{
}

/// Reading a flag out of a written status byte: the written flag holds the
/// written value, and every other flag keeps its previous state.
pub broadcast proof fn lemma_status_write_read(st: u8, f: Flag, v: bool, g: Flag)
    ensures
        #[trigger] flag_set(spec_status_write(st, f, v), g) == (if f == g {
            v
        } else {
            flag_set(st, g)
        }),
{
    match f {
        Flag::Carry => assert(f.spec_mask() == 0x01),
        Flag::Zero => assert(f.spec_mask() == 0x02),
        Flag::Interrupt => assert(f.spec_mask() == 0x04),
        Flag::Decimal => assert(f.spec_mask() == 0x08),
        Flag::Break => assert(f.spec_mask() == 0x10),
        Flag::Overflow => assert(f.spec_mask() == 0x40),
        Flag::Negative => assert(f.spec_mask() == 0x80),
    };
    match g {
        Flag::Carry => assert(g.spec_mask() == 0x01),
        Flag::Zero => assert(g.spec_mask() == 0x02),
        Flag::Interrupt => assert(g.spec_mask() == 0x04),
        Flag::Decimal => assert(g.spec_mask() == 0x08),
        Flag::Break => assert(g.spec_mask() == 0x10),
        Flag::Overflow => assert(g.spec_mask() == 0x40),
        Flag::Negative => assert(g.spec_mask() == 0x80),
    };
    if f == g {
        lemma_mask_write_bits(st, f.spec_mask(), 0x20, v);
    } else {
        lemma_mask_write_bits(st, f.spec_mask(), g.spec_mask(), v);
    }
}

/// Reading a flag after Zero and Negative were recomputed from a value:
/// Zero holds exactly when the value is 0, Negative exactly when its bit 7
/// is set, and every other flag keeps its previous state.
pub broadcast proof fn lemma_set_nz_read(st: u8, v: u8, g: Flag)
    ensures
        #[trigger] flag_set(spec_set_nz(st, v), g) == (if g == Flag::Zero {
            v == 0
        } else if g == Flag::Negative {
            v & 0x80 != 0
        } else {
            flag_set(st, g)
        }),
{
    let zero_bit: u8 = if v == 0 {
        0x02
    } else {
        0
    };
    lemma_set_nz_bits(st, v, zero_bit);
    match g {
        Flag::Carry => assert(g.spec_mask() == 0x01),
        Flag::Zero => assert(g.spec_mask() == 0x02),
        Flag::Interrupt => assert(g.spec_mask() == 0x04),
        Flag::Decimal => assert(g.spec_mask() == 0x08),
        Flag::Break => assert(g.spec_mask() == 0x10),
        Flag::Overflow => assert(g.spec_mask() == 0x40),
        Flag::Negative => assert(g.spec_mask() == 0x80),
    };
}

/// No flag write touches the reserved status bit.
pub broadcast proof fn lemma_status_write_keeps_reserved(st: u8, f: Flag, v: bool)
    ensures
        ((#[trigger] spec_status_write(st, f, v)) & 0x20 != 0) == (st & 0x20 != 0),
{
    match f {
        Flag::Carry => assert(f.spec_mask() == 0x01),
        Flag::Zero => assert(f.spec_mask() == 0x02),
        Flag::Interrupt => assert(f.spec_mask() == 0x04),
        Flag::Decimal => assert(f.spec_mask() == 0x08),
        Flag::Break => assert(f.spec_mask() == 0x10),
        Flag::Overflow => assert(f.spec_mask() == 0x40),
        Flag::Negative => assert(f.spec_mask() == 0x80),
    };
    lemma_mask_write_bits(st, f.spec_mask(), 0x20, v);
}

/// Recomputing Zero and Negative does not touch the reserved status bit.
pub broadcast proof fn lemma_set_nz_keeps_reserved(st: u8, v: u8)
    ensures
        ((#[trigger] spec_set_nz(st, v)) & 0x20 != 0) == (st & 0x20 != 0),
{
    let zero_bit: u8 = if v == 0 {
        0x02
    } else {
        0
    };
    lemma_set_nz_bits(st, v, zero_bit);
}

/// What the flags of an add-with-carry mean in plain arithmetic: the
/// accumulator takes the 9-bit sum modulo 256, Carry is exactly "the sum
/// reached 256", Zero and Negative follow the result, and Overflow holds
/// exactly when the signed reading of the sum leaves the signed 8-bit
/// range.
pub proof fn lemma_alu_add_flags(r: Registers, value: u8)
    ensures
        ({
            let carry_in: int = if flag_set(r.status_register, Flag::Carry) {
                1
            } else {
                0
            };
            let sum = r.accumulator + value + carry_in;
            let after = spec_alu_add(r, value);
            &&& after.accumulator == sum % 256
            &&& after.x_index == r.x_index && after.y_index == r.y_index
            &&& after.stack_pointer == r.stack_pointer
            &&& after.program_counter == r.program_counter
            &&& flag_set(after.status_register, Flag::Carry) == (sum >= 256)
            &&& flag_set(after.status_register, Flag::Zero) == (after.accumulator == 0)
            &&& flag_set(after.status_register, Flag::Negative) == (after.accumulator >= 128)
            &&& flag_set(after.status_register, Flag::Overflow) == !(-128 <= signed(
                r.accumulator,
            ) + signed(value) + carry_in <= 127)
        }),
{
    broadcast use lemma_status_write_read, lemma_set_nz_read;

    let carry_in: u8 = if flag_set(r.status_register, Flag::Carry) {
        1
    } else {
        0
    };
    let a = r.accumulator;
    let result = ((a + value + carry_in) % 256) as u8;
    assert(((result & 0x80 != 0) == (result >= 128)) && (((a & 0x80) == (value & 0x80) && (result
        & 0x80) != (a & 0x80)) == !(-128 <= (if a < 0x80 {
        a as int
    } else {
        a - 256
    }) + (if value < 0x80 {
        value as int
    } else {
        value - 256
    }) + carry_in <= 127))) by (bit_vector)
        requires
            result == ((a + value + carry_in) % 256) as u8,
            carry_in == 0 || carry_in == 1,
    ;
}

/// What subtract-with-borrow means in plain arithmetic: adding the
/// operand's bitwise negation makes the accumulator take
/// `accumulator - value - borrow` modulo 256, with Carry acting as "not
/// borrow": it ends up set exactly when no borrow occurred.
pub proof fn lemma_alu_subtract_flags(r: Registers, value: u8)
    ensures
        ({
            let borrow: int = if flag_set(r.status_register, Flag::Carry) {
                0
            } else {
                1
            };
            let after = spec_alu_add(r, !value);
            &&& after.accumulator == (r.accumulator + 256 - value - borrow) % 256
            &&& flag_set(after.status_register, Flag::Carry) == (r.accumulator >= value + borrow)
        }),
{
    lemma_alu_add_flags(r, !value);
    assert(!value == 255 - value) by (bit_vector);
}

/// What a compare means in plain arithmetic: no register changes, Carry
/// ends up set exactly when `register >= value` (unsigned, no borrow),
/// Zero exactly when they are equal, and Negative follows bit 7 of the
/// 8-bit difference.
pub proof fn lemma_alu_compare_flags(r: Registers, register: u8, value: u8)
    ensures
        ({
            let after = spec_alu_compare(r, register, value);
            let difference = ((register + 256 - value) % 256) as u8;
            &&& after.accumulator == r.accumulator
            &&& after.x_index == r.x_index && after.y_index == r.y_index
            &&& after.stack_pointer == r.stack_pointer
            &&& after.program_counter == r.program_counter
            &&& flag_set(after.status_register, Flag::Carry) == (register >= value)
            &&& flag_set(after.status_register, Flag::Zero) == (register == value)
            &&& flag_set(after.status_register, Flag::Negative) == (difference >= 128)
        }),
{
    broadcast use lemma_status_write_read, lemma_set_nz_read;

    let difference = ((register + 256 - value) % 256) as u8;
    assert((difference & 0x80 != 0) == (difference >= 128)) by (bit_vector);
}

/// The program counter advanced by one, wrapping modulo 65536.
pub open spec fn spec_pc_increment(pc: u16) -> u16 {
    ((pc + 1) % 0x10000) as u16
}

/// The program counter displaced by a signed offset, wrapping modulo 65536.
pub open spec fn spec_pc_offset(pc: u16, offset: i8) -> u16 {
    ((pc + offset + 0x10000) % 0x10000) as u16
}

/// The register file at power-on, before the reset vector is loaded:
/// data registers zeroed, stack pointer at the top of the stack page,
/// interrupt-disable set, and the reserved status bit set.
pub open spec fn power_on_registers() -> Registers {
    Registers {
        accumulator: 0,
        x_index: 0,
        y_index: 0,
        stack_pointer: 0xff,
        program_counter: 0,
        status_register: 0x24,
    }
}

/// The register file after an add-with-carry of `value` into the
/// accumulator: a 9-bit sum of accumulator, operand and carry-in; Carry is
/// bit 8 of the sum; Overflow is set when both operands share a sign and
/// the result's sign differs from it; Zero and Negative follow the result.
pub open spec fn spec_alu_add(r: Registers, value: u8) -> Registers {
    let carry_in: u8 = if flag_set(r.status_register, Flag::Carry) {
        1
    } else {
        0
    };
    let sum = r.accumulator + value + carry_in;
    let result = (sum % 256) as u8;
    let carry_out = sum >= 256;
    let overflow = (r.accumulator & 0x80) == (value & 0x80) && (result & 0x80) != (r.accumulator
        & 0x80);
    let status = spec_set_nz(
        spec_status_write(
            spec_status_write(r.status_register, Flag::Carry, carry_out),
            Flag::Overflow,
            overflow,
        ),
        result,
    );
    Registers { accumulator: result, status_register: status, ..r }
}

/// The register file after comparing `register` against `value`: Carry is
/// set when `register >= value` (no borrow), Zero and Negative follow the
/// 8-bit difference; no data register changes.
pub open spec fn spec_alu_compare(r: Registers, register: u8, value: u8) -> Registers {
    let difference = ((register + 256 - value) % 256) as u8;
    let status = spec_set_nz(
        spec_status_write(r.status_register, Flag::Carry, register >= value),
        difference,
    );
    Registers { status_register: status, ..r }
}

/// The processor's mutable state: all 8-bit registers wrap modulo 256 and
/// the program counter wraps modulo 65536. The stack pointer is an offset
/// into the fixed page 0x0100-0x01FF.
#[derive(Clone, Copy, Debug, PartialEq, Eq, Structural)]
pub struct Registers {
    pub accumulator: u8,
    pub x_index: u8,
    pub y_index: u8,
    pub stack_pointer: u8,
    pub program_counter: u16,
    pub status_register: u8,
}

impl Registers {
    /// A register file in its power-on state.
    pub fn new() -> (r: Registers)
        ensures
            r == power_on_registers(),
    {
        Registers {
            accumulator: 0,
            x_index: 0,
            y_index: 0,
            stack_pointer: 0xff,
            program_counter: 0,
            status_register: 0x24,
        }
    }

    /// Reads one status flag.
    pub fn status_read(&self, f: Flag) -> (r: bool)
        ensures
            r == flag_set(self.status_register, f),
    {
        self.status_register & f.mask() != 0
    }

    /// Writes one status flag, leaving every other bit alone.
    pub fn status_write(&mut self, f: Flag, value: bool)
        ensures
            *final(self) == (Registers {
                status_register: spec_status_write(old(self).status_register, f, value),
                ..*old(self)
            }),
    {
        if value {
            self.status_register = self.status_register | f.mask();
        } else {
            self.status_register = self.status_register & !f.mask();
        }
    }

    /// Sets one status flag.
    pub fn status_set(&mut self, f: Flag)
        ensures
            *final(self) == (Registers {
                status_register: spec_status_write(old(self).status_register, f, true),
                ..*old(self)
            }),
    {
        self.status_write(f, true);
    }

    /// Clears one status flag.
    pub fn status_clear(&mut self, f: Flag)
        ensures
            *final(self) == (Registers {
                status_register: spec_status_write(old(self).status_register, f, false),
                ..*old(self)
            }),
    {
        self.status_write(f, false);
    }

    /// Replaces the whole status byte wholesale (used by PLP and RTI); the
    /// reserved bit is always read as set.
    pub fn status_load(&mut self, value: u8)
        ensures
            *final(self) == (Registers {
                status_register: value | 0x20,
                ..*old(self)
            }),
    {
        self.status_register = value | 0x20;
    }

    /// Recomputes Zero and Negative from `value`: Zero iff `value == 0`,
    /// Negative iff bit 7 of `value` is set; every other flag is untouched.
    pub fn status_set_nz(&mut self, value: u8)
        ensures
            *final(self) == (Registers {
                status_register: spec_set_nz(old(self).status_register, value),
                ..*old(self)
            }),
            flag_set(final(self).status_register, Flag::Zero) == (value == 0),
            flag_set(final(self).status_register, Flag::Negative) == (value & 0x80 != 0),
            forall|f: Flag|
                f != Flag::Zero && f != Flag::Negative ==> #[trigger] flag_set(
                    final(self).status_register,
                    f,
                ) == flag_set(old(self).status_register, f),
    {
        let zero_bit: u8 = if value == 0 {
            0x02
        } else {
            0
        };
        self.status_register = (self.status_register & 0x7d) | zero_bit | (value & 0x80);
        proof {
            lemma_set_nz_read(old(self).status_register, value, Flag::Zero);
            lemma_set_nz_read(old(self).status_register, value, Flag::Negative);
            assert forall|f: Flag| f != Flag::Zero && f != Flag::Negative implies #[trigger] flag_set(
                self.status_register,
                f,
            ) == flag_set(old(self).status_register, f) by {
                lemma_set_nz_read(old(self).status_register, value, f);
            }
        }
    }

    /// Add-with-carry into the accumulator; see `spec_alu_add`.
    pub fn alu_add(&mut self, value: u8)
        ensures
            *final(self) == spec_alu_add(*old(self), value),
    {
        let carry_in: u16 = if self.status_read(Flag::Carry) {
            1
        } else {
            0
        };
        let sum: u16 = self.accumulator as u16 + value as u16 + carry_in;
        let result: u8 = (sum % 256) as u8;
        let carry_out = sum >= 256;
        let overflow = (self.accumulator & 0x80) == (value & 0x80) && (result & 0x80) != (
        self.accumulator & 0x80);
        self.status_write(Flag::Carry, carry_out);
        self.status_write(Flag::Overflow, overflow);
        self.status_set_nz(result);
        self.accumulator = result;
    }

    /// Subtract-with-borrow from the accumulator: the two's-complement add
    /// of the operand's bitwise negation, so Carry acts as "not borrow".
    pub fn alu_subtract(&mut self, value: u8)
        ensures
            *final(self) == spec_alu_add(*old(self), !value),
    {
        self.alu_add(!value);
    }

    /// Compares `register` against `value` without mutating any data
    /// register; see `spec_alu_compare`.
    pub fn alu_compare(&mut self, register: u8, value: u8)
        ensures
            *final(self) == spec_alu_compare(*old(self), register, value),
    {
        let difference: u8 = ((register as u16 + 256 - value as u16) % 256) as u8;
        self.status_write(Flag::Carry, register >= value);
        self.status_set_nz(difference);
    }

    /// Loads the program counter with an absolute address.
    pub fn pc_load(&mut self, address: u16)
        ensures
            *final(self) == (Registers { program_counter: address, ..*old(self) }),
    {
        self.program_counter = address;
    }

    /// Advances the program counter by one, wrapping modulo 65536.
    pub fn pc_increment(&mut self)
        ensures
            *final(self) == (Registers {
                program_counter: spec_pc_increment(old(self).program_counter),
                ..*old(self)
            }),
    {
        self.program_counter = ((self.program_counter as u32 + 1) % 0x10000) as u16;
    }

    /// Displaces the program counter by a signed offset, wrapping modulo
    /// 65536 (used by the branch instructions).
    pub fn pc_offset(&mut self, offset: i8)
        ensures
            *final(self) == (Registers {
                program_counter: spec_pc_offset(old(self).program_counter, offset),
                ..*old(self)
            }),
    {
        let displaced: i32 = self.program_counter as i32 + offset as i32 + 0x10000;
        self.program_counter = (displaced % 0x10000) as u16;
    }

    /// Reads the current program counter.
    pub fn pc_address(&self) -> (r: u16)
        ensures
            r == self.program_counter,
    {
        self.program_counter
    }
}

} // verus!
