//! A 6502 processor core: registers, a flat 64 KiB-style memory, the
//! addressing modes and a growing subset of the instruction set.
//!
//! Every executable function is stated against a mathematical model of the
//! machine (`cpu::CpuState`) and a one-instruction transition function
//! (`cpu::step_spec`); running a program is the iteration of that function
//! until the processor reaches `BRK`.
pub mod instructions;
pub mod cpu;
pub mod laws;
