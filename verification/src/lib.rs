//! Instruction-level emulation core for an 8-bit 6502-class microprocessor.
//!
//! The crate models the register file and status flags, a byte-addressed
//! memory bus composed out of backing stores by an address-space router,
//! the addressing-mode resolver, the ALU helpers, the opcode dispatcher,
//! and the system driver that steps the machine one instruction at a time.

pub mod execute;
pub mod fetch;
pub mod memory;
pub mod registers;
pub mod system;
