//! A verified interpreter for CVERE, a 16-bit fantasy CPU with a 64 KiB
//! flat byte-addressed memory, sixteen general-purpose registers, and a
//! three-ring privilege model with banked stack pointers, exception and
//! interrupt vectors, and segment-style memory protection.
//!
//! The crate is organised bottom-up: the memory unit, the register file
//! (which owns the privilege state machine), the stateless instruction
//! decoder, and the virtual machine that drives fetch, decode, dispatch
//! and trap delivery. The syscall host types (console, game world,
//! allocator) live beside them.

use vstd::prelude::*;

pub mod console;
pub mod decoder;
pub mod flags;
pub mod memory;
pub mod registers;
pub mod syscall;
pub mod text;
pub mod vm;
pub mod world;

verus! {

/// The distinct error kinds the machine can report.
///
/// Faults raised while guest code runs (`OutOfRange` through
/// `InvalidOpcode`) are not surfaced to the caller of `step`: the
/// interpreter converts them into trap entries through the exception
/// vector. Only driver-level misuse (`Halted`, or an out-of-range
/// program load) is returned as an error.
#[derive(Debug, Clone, Copy, PartialEq, Eq, Structural)]
pub enum VmError {
    /// A memory or vector index outside `[0, 65536)`.
    OutOfRange,
    /// A ring-gated memory access was denied.
    AccessViolation,
    /// The program counter left the code segment.
    ExecutionViolation,
    /// An illegal privilege transition, or a syscall from too low a ring.
    PrivilegeViolation,
    /// The decoder produced an unknown instruction.
    InvalidOpcode,
    /// `step` was invoked on a halted machine.
    Halted,
}

impl VmError {
    /// The code written into the high byte of the status register when
    /// this fault is delivered as a trap. `Halted` is a driver-level
    /// error that never traps; it is given code 0.
    pub open spec fn spec_fault_code(self) -> u16 {
        match self {
            VmError::OutOfRange => 1,
            VmError::AccessViolation => 2,
            VmError::ExecutionViolation => 3,
            VmError::PrivilegeViolation => 4,
            VmError::InvalidOpcode => 5,
            VmError::Halted => 0,
        }
    }

    /// The numeric trap code for this error kind.
    pub fn fault_code(&self) -> (r: u16)
        ensures
            r == self.spec_fault_code(),
    {
        match self {
            VmError::OutOfRange => 1,
            VmError::AccessViolation => 2,
            VmError::ExecutionViolation => 3,
            VmError::PrivilegeViolation => 4,
            VmError::InvalidOpcode => 5,
            VmError::Halted => 0,
        }
    }
}

} // verus!
