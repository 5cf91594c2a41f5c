//! Error types for the VM runtime.

use vstd::prelude::*;

verus! {

/// Errors that can occur while loading, verifying or executing a contract.
#[derive(Debug)]
pub enum TosVmError {
    /// Bytecode loading or parsing failed.
    ElfLoadError(String),
    /// Bytecode verification failed.
    VerificationFailed(String),
    /// The engine reported an execution fault.
    ExecutionError(String),
    /// The compute budget was exhausted.
    OutOfComputeUnits,
    /// A guest memory access was rejected.
    MemoryAccessViolation {
        /// The guest address that caused the violation.
        address: u64,
    },
    /// A syscall name could not be resolved.
    InvalidSyscall {
        /// The syscall name.
        name: String,
    },
    /// A syscall failed.
    SyscallError {
        /// The syscall that failed.
        syscall: String,
        /// The reason for the failure.
        reason: String,
    },
    /// The program ran to completion and returned a nonzero error code.
    ProgramError(u64),
    /// An engine-level error, surfaced as text.
    TbpfError(String),
}

} // verus!
