//! The register file of the processor.
use vstd::prelude::*;

verus! {

/// Processor state at one point in time.
#[derive(Debug, Clone, Copy, PartialEq, Eq, Structural)]
pub struct Regs {
    /// Accumulator
    pub a: i8,
    /// Index register X
    pub x: i8,
    /// Index register Y
    pub y: i8,
    /// Program counter
    pub pc: u16,
    /// Stack pointer
    pub s: u8,
    /// Status register (6 bits in use)
    pub p: u8,
}

/// The registers at power-up: every one of them zero.
pub open spec fn zeroed_regs() -> Regs {
    Regs { a: 0, x: 0, y: 0, pc: 0, s: 0, p: 0 }
}

impl Default for Regs {
    fn default() -> (r: Regs)
        ensures
            r == zeroed_regs(),
    {
        Regs { a: 0, x: 0, y: 0, pc: 0, s: 0, p: 0 }
    }
}

} // verus!
