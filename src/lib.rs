//! The fetch and decode front end of a 6502 emulator: the addressing mode of
//! each opcode, the size of its operand, and a step that moves the program
//! counter past one instruction.
pub mod addr_modes;
pub mod regs;

use vstd::prelude::*;

verus! {

pub use crate::addr_modes::{
    AddrMode,
    addr_mode_of,
    get_addr_mode,
    get_operand_size,
    operand_size_of,
};
pub use crate::regs::{Regs, zeroed_regs};

/// Why a step could not be taken.
#[derive(Debug, Clone, Copy, PartialEq, Eq, Structural)]
pub enum CpuError {
    /// The opcode or one of its operand bytes lies past the end of memory.
    OutOfBounds,
    /// The run loop does not exist yet.
    NotImplemented,
}

/// Whether the opcode at `pc` and all its operand bytes lie inside `mem`.
pub open spec fn instruction_fits(pc: u16, mem: Seq<u8>) -> bool {
    &&& (pc as int) < mem.len()
    &&& pc + 1 + operand_size_of(addr_mode_of(mem[pc as int])) <= mem.len()
}

/// The program counter after an instruction of `n` operand bytes at `pc`,
/// in the 16-bit address space.
pub open spec fn next_pc(pc: u16, n: nat) -> u16 {
    ((pc + n + 1) % 0x10000) as u16
}

/// One step over `mem` from `regs`: the registers with the program counter
/// moved past the instruction at `pc`, or `OutOfBounds` where that
/// instruction does not lie wholly inside `mem`.
pub open spec fn step_of(regs: Regs, mem: Seq<u8>) -> Result<Regs, CpuError> {
    if instruction_fits(regs.pc, mem) {
        Ok(
            Regs {
                pc: next_pc(regs.pc, operand_size_of(addr_mode_of(mem[regs.pc as int]))),
                ..regs
            },
        )
    } else {
        Err(CpuError::OutOfBounds)
    }
}

/// A step over an instruction of `n` operand bytes at `p`, with at least
/// `n + 1` bytes of memory from `p` on, moves the program counter to
/// `p + n + 1` and leaves every other register as it was. (Past the top of
/// the 16-bit address space the counter wraps; see `next_pc`.)
pub proof fn lemma_step_advances(regs: Regs, mem: Seq<u8>)
    requires
        (regs.pc as int) < mem.len(),
        regs.pc + 1 + operand_size_of(addr_mode_of(mem[regs.pc as int])) <= mem.len(),
        regs.pc + 1 + operand_size_of(addr_mode_of(mem[regs.pc as int])) <= 0xFFFF,
    ensures
        step_of(regs, mem) is Ok,
        step_of(regs, mem)->Ok_0.pc == regs.pc + 1 + operand_size_of(
            addr_mode_of(mem[regs.pc as int]),
        ),
        step_of(regs, mem)->Ok_0.a == regs.a,
        step_of(regs, mem)->Ok_0.x == regs.x,
        step_of(regs, mem)->Ok_0.y == regs.y,
        step_of(regs, mem)->Ok_0.s == regs.s,
        step_of(regs, mem)->Ok_0.p == regs.p,
{
}

/// A step where fewer than `n + 1` bytes of memory remain from the program
/// counter `p` on (`n` the operand size of the opcode at `p`), or where `p`
/// itself lies past the end of memory, fails with `OutOfBounds`.
pub proof fn lemma_step_out_of_bounds(regs: Regs, mem: Seq<u8>)
    requires
        (regs.pc as int) >= mem.len() || regs.pc + 1 + operand_size_of(
            addr_mode_of(mem[regs.pc as int]),
        ) > mem.len(),
    ensures
        step_of(regs, mem) == Err::<Regs, CpuError>(CpuError::OutOfBounds),
{
}

#[derive(Debug)]
pub struct Cpu {
    arch: String,
    regs: Regs,
}

impl Cpu {
    /// The architecture name, informational only.
    pub closed spec fn arch_spec(&self) -> Seq<char> {
        self.arch@
    }

    /// The register file.
    pub closed spec fn regs_spec(&self) -> Regs {
        self.regs
    }

    /// A processor at power-up: a NES 6502 with all registers zero.
    pub fn new() -> (r: Cpu)
        ensures
            r.arch_spec() == "NES-6502"@,
            r.regs_spec() == zeroed_regs(),
    {
        Cpu { arch: "NES-6502".to_string(), regs: Regs::default() }
    }

    /// The fetch, decode and execute loop, which does not exist yet: it
    /// always fails with `NotImplemented` and changes nothing.
    pub fn run(&mut self, mem: &mut [u8]) -> (r: Result<(), CpuError>)
        ensures
            r == Err::<(), CpuError>(CpuError::NotImplemented),
            *final(self) == *old(self),
            final(mem)@ == old(mem)@,
    {
        Err(CpuError::NotImplemented)
    }

    /// Executes one instruction: reads the opcode at the program counter,
    /// decodes its addressing mode and moves the program counter past the
    /// opcode and its operand bytes. Where they do not all lie inside `mem`
    /// it fails with `OutOfBounds` and leaves the registers as they were.
    pub fn execute(&mut self, mem: &[u8]) -> (r: Result<(), CpuError>)
        ensures
            final(self).arch_spec() == old(self).arch_spec(),
            match step_of(old(self).regs_spec(), mem@) {
                Ok(regs) => r is Ok && final(self).regs_spec() == regs,
                Err(e) => r == Err::<(), CpuError>(e) && final(self).regs_spec() == old(self).regs_spec(),
            },
    {
        let pc: u16 = self.regs.pc;
        if pc as usize >= mem.len() {
            return Err(CpuError::OutOfBounds);
        }
        let code: u8 = mem[pc as usize];
        let addr_mode = get_addr_mode(code);
        let operand_length: usize = get_operand_size(addr_mode);
        if mem.len() - (pc as usize) - 1 < operand_length {
            return Err(CpuError::OutOfBounds);
        }
        self.regs.pc = pc.wrapping_add(operand_length as u16 + 1);
        Ok(())
    }

    /// The register file.
    pub fn regs(&self) -> (r: Regs)
        ensures
            r == self.regs_spec(),
    {
        self.regs
    }

    /// The architecture name.
    pub fn arch(&self) -> (r: &str)
        ensures
            r@ == self.arch_spec(),
    {
        self.arch.as_str()
    }
}

} // verus!
