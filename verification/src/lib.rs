//! A cycle-stepped emulator for the MOS 6502 CPU.
//!
//! The library models the fetch-decode-execute engine of the processor:
//! the opcode table over all 256 opcode bytes, operand resolution for the
//! thirteen addressing modes, the per-instruction semantics of the 151
//! documented instructions (registers, flags, memory effects), and cycle
//! accounting including page-cross and branch-taken penalties.

pub mod addressing;
pub mod alu;
pub mod cart;
pub mod cpu;
pub mod memory;
pub mod opcodes;
