//! An emulator for a 32-bit fixed-width instruction set: registers, paged
//! memory with protection bits, the instruction decoder, the interpreter and
//! the driver that steps it.

pub mod cpu;
pub mod emulator;
pub mod host;
pub mod instruction;
pub mod mmu;
pub mod monitor;
pub mod registers;
pub mod trace;
