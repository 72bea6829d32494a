//! A deterministic simulator of small 32-bit microcontrollers: an ARMv7-M
//! Thumb interpreter, a memory-mapped bus with mock peripherals, and the
//! interrupt plumbing between them.
use vstd::prelude::*;

pub mod bits;
pub mod bus;
pub mod config;
pub mod cpu;
pub mod decoder;
pub mod loader;
pub mod machine;
pub mod memory;
pub mod metrics;
pub mod peripherals;
pub mod report;
pub mod riscv;
pub mod stack;
pub mod regex;
pub mod text;

verus! {

/// A fatal error of one simulation step.
#[derive(Debug, Clone, Copy, PartialEq, Eq, Structural)]
pub enum SimulationError {
    /// No memory region or peripheral answers at this address.
    MemoryViolation(u64),
    /// The instruction at this address cannot be decoded.
    DecodeError(u64),
}

pub type SimResult<T> = Result<T, SimulationError>;

/// What a peripheral reports after one tick.
#[derive(Debug, Clone, Copy, PartialEq, Eq, Structural)]
pub struct PeripheralTickResult {
    pub irq: bool,
    pub cycles: u32,
}

} // verus!
