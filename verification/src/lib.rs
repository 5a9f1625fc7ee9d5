//! A verified emulator core for a 16-bit word-addressed CPU (the DCPU-16
//! architecture): 8 general registers, PC/SP/EX/IA, 65536 words of memory,
//! an instruction decoder, operand resolution for the 11 addressing classes,
//! an ALU with exact overflow/carry (EX) semantics, conditional skip chains,
//! and an interrupt controller with a bounded queue.
//!
//! The single externally driven transition is [`CpuState::step`]; its contract
//! says that the machine state evolves exactly as the specification-level
//! interpreter [`cpu::spec_step`] dictates.

pub mod alu;
pub mod cpu;
pub mod decode;
pub mod laws;
pub mod words;

pub use cpu::{Action, CpuState, CpuView, Dest, Fault, Resolved};
pub use decode::{Instruction, Op, SpecialOp, ValueType};
