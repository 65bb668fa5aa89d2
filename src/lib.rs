//! An interpreter core for the classic 8-bit CHIP-8 virtual machine: the
//! instruction decoder, the per-instruction semantics, the cycle driver and
//! the 60 Hz timer model, each stated as a contract over a mathematical model
//! of the machine.

pub mod cpu;
pub mod lemmas;
pub mod machine;
pub mod memory;
pub mod opcode;
