//! A software model of a reduced RISC-V instruction set: a bit-exact codec for
//! 32-bit instruction words and a small machine that executes them.

pub mod format;
pub mod instruction;
pub mod memory;
pub mod narrow;
pub mod registry;
pub mod risc_machine;
pub mod riscv_instruction;
pub mod word;
