//! An LC-3 virtual machine: a 16-bit architecture with a flat 64K-word
//! memory, eight general-purpose registers, sixteen opcodes and six trap
//! routines, executed by a synchronous fetch-decode-execute loop.
//!
//! The machine state is held in plain values: memory and registers as
//! `Vec<u16>`, keyboard input as a queue of bytes, terminal output as a
//! buffer of bytes. A driver owns the loop, performs the real I/O, and
//! feeds the queue; the execution engine itself is verified.

pub mod exec;
pub mod memory;
pub mod op_codes;
pub mod registers;
pub mod trap_codes;
pub mod utils;
