//! VM wrapper boundary: the decisions the thin layer around the external
//! bytecode engine makes, specified as a state machine.
//!
//! Loading, verifying and running bytecode are the engine's work and happen
//! in the host; what the wrapper itself decides — whether a requested budget
//! is acceptable, how an execution outcome is classified, which lifecycle
//! transitions are legal, and which names the syscall registry binds — is
//! here, with contracts.

use vstd::prelude::*;
use vstd::utf8::valid_utf8;
use crate::context::TosContext;
use crate::error::TosVmError;
use crate::memory::{MemoryMapping, spec_load, string_from_utf8};

verus! {

/// Default compute budget of an execution.
pub const DEFAULT_COMPUTE_BUDGET: u64 = 200_000;

/// Largest compute budget an execution may request.
pub const MAX_COMPUTE_BUDGET: u64 = 1_400_000;

/// Largest message the engine-level log syscall accepts, in bytes.
pub const ENGINE_LOG_MAX_LENGTH: u64 = 1024;

/// Accepts a requested compute budget, refusing one over
/// [`MAX_COMPUTE_BUDGET`].
pub fn validate_compute_budget(compute_budget: u64) -> (r: Result<u64, TosVmError>)
    ensures
        compute_budget <= MAX_COMPUTE_BUDGET ==> r == Ok::<u64, TosVmError>(compute_budget),
        compute_budget > MAX_COMPUTE_BUDGET ==> (r matches Err(e) && e is ExecutionError),
{
    if compute_budget > MAX_COMPUTE_BUDGET {
        return Err(
            TosVmError::ExecutionError("compute budget exceeds the maximum".to_owned()),
        );
    }
    Ok(compute_budget)
}

/// Classifies what the engine's single synchronous call returned: zero is
/// success, a nonzero code is the program's own error, and an engine-level
/// fault is surfaced as an execution error.
pub fn interpret_execution_result(result: Result<u64, String>) -> (r: Result<u64, TosVmError>)
    ensures
        result == Ok::<u64, String>(0u64) ==> r == Ok::<u64, TosVmError>(0u64),
        result matches Ok(code) ==> code != 0 ==> (r matches Err(e) && e matches
            TosVmError::ProgramError(c) && c == code),
        result matches Err(msg) ==> (r matches Err(e) && e matches TosVmError::ExecutionError(m)
            && m@ == msg@),
{
    match result {
        Ok(code) => {
            if code != 0 {
                Err(TosVmError::ProgramError(code))
            } else {
                Ok(0)
            }
        },
        Err(msg) => Err(TosVmError::ExecutionError(msg)),
    }
}

/// Lifecycle states of one VM execution.
#[derive(Debug)]
pub enum VmState {
    /// No bytecode accepted yet.
    Unloaded,
    /// Bytecode loaded and verified.
    Verified,
    /// An invocation context is bound.
    ContextBound,
    /// The engine is running the program.
    Executing,
    /// The program ran to completion successfully.
    Completed(u64),
    /// The program ran to completion with a nonzero error code.
    ProgramError(u64),
    /// The engine or the wrapper trapped; the invocation does not continue.
    Trapped(TosVmError),
}

impl VmState {
    /// Whether the execution has ended, one way or another.
    pub open spec fn is_terminal(&self) -> bool {
        self is Completed || self is ProgramError || self is Trapped
    }
}

/// Events that drive the VM lifecycle.
#[derive(Debug)]
pub enum VmEvent {
    /// The engine loaded the bytecode and its verifier accepted it.
    BytecodeAccepted,
    /// The engine's loader or verifier rejected the bytecode.
    BytecodeRejected(String),
    /// An invocation context was bound to the execution.
    ContextAttached,
    /// The engine began running the program.
    ExecutionStarted,
    /// The engine's single synchronous call returned.
    ExecutionFinished(Result<u64, String>),
}

/// The lifecycle's transition function: `Unloaded` to `Verified` to
/// `ContextBound` to `Executing` to one of the three terminal states. Any
/// event out of order traps.
pub fn vm_step(state: VmState, event: VmEvent) -> (r: VmState)
    ensures
        (state is Unloaded && event is BytecodeAccepted) ==> r is Verified,
        state is Unloaded ==> (event matches VmEvent::BytecodeRejected(m) ==> (
        r matches VmState::Trapped(e) && e matches TosVmError::VerificationFailed(em) && em@
            == m@)),
        (state is Verified && event is ContextAttached) ==> r is ContextBound,
        (state is ContextBound && event is ExecutionStarted) ==> r is Executing,
        state is Executing ==> (event matches VmEvent::ExecutionFinished(outcome)
            ==> match outcome {
            Ok(code) => if code == 0 {
                r == VmState::Completed(0u64)
            } else {
                r == VmState::ProgramError(code)
            },
            Err(m) => (r matches VmState::Trapped(e) && e matches TosVmError::ExecutionError(em)
                && em@ == m@),
        }),
        !(state is Unloaded && event is BytecodeAccepted) && !(state is Unloaded
            && event is BytecodeRejected) && !(state is Verified && event is ContextAttached) && !(
        state is ContextBound && event is ExecutionStarted) && !(state is Executing
            && event is ExecutionFinished) ==> (r matches VmState::Trapped(e)
            && e is ExecutionError),
{
    match (state, event) {
        (VmState::Unloaded, VmEvent::BytecodeAccepted) => VmState::Verified,
        (VmState::Unloaded, VmEvent::BytecodeRejected(m)) => VmState::Trapped(
            TosVmError::VerificationFailed(m),
        ),
        (VmState::Verified, VmEvent::ContextAttached) => VmState::ContextBound,
        (VmState::ContextBound, VmEvent::ExecutionStarted) => VmState::Executing,
        (VmState::Executing, VmEvent::ExecutionFinished(outcome)) => match outcome {
            Ok(code) => {
                if code == 0 {
                    VmState::Completed(0)
                } else {
                    VmState::ProgramError(code)
                }
            },
            Err(m) => VmState::Trapped(TosVmError::ExecutionError(m)),
        },
        (_, _) => VmState::Trapped(
            TosVmError::ExecutionError("event out of order for the current state".to_owned()),
        ),
    }
}

/// Handler of the engine-level `tos_log` syscall, bound against the
/// meter-only [`TosContext`].
pub struct SyscallLog;

impl SyscallLog {
    /// Log a message from the contract against the meter-only context.
    ///
    /// The message is validated against the engine-level length limit,
    /// read out of guest memory and checked to be UTF-8; the host
    /// displays it when debug mode is on. One compute unit per byte is
    /// charged at the end, unconditionally and saturating.
    pub fn call(
        msg_ptr: u64,
        msg_len: u64,
        _arg3: u64,
        _arg4: u64,
        _arg5: u64,
        memory_mapping: &MemoryMapping,
        context: &mut TosContext,
    ) -> (r: Result<u64, TosVmError>)
        ensures
            msg_len > ENGINE_LOG_MAX_LENGTH ==> (r matches Err(e) && e is SyscallError)
                && *final(context) == *old(context),
            msg_len <= ENGINE_LOG_MAX_LENGTH ==> match spec_load(
                memory_mapping@,
                msg_ptr as int,
                msg_len as int,
            ) {
                None => (r matches Err(e) && e is SyscallError) && *final(context) == *old(context),
                Some(b) => if valid_utf8(b) {
                    r == Ok::<u64, TosVmError>(0) && *final(context) == (TosContext {
                        remaining_compute_units: if msg_len <= old(
                            context,
                        ).remaining_compute_units {
                            (old(context).remaining_compute_units - msg_len) as u64
                        } else {
                            0u64
                        },
                        ..*old(context)
                    })
                } else {
                    (r matches Err(e) && e is SyscallError) && *final(context) == *old(context)
                },
            },
    {
        if msg_len > ENGINE_LOG_MAX_LENGTH {
            return Err(
                TosVmError::SyscallError {
                    syscall: "tos_log".to_owned(),
                    reason: "message length exceeds the maximum".to_owned(),
                },
            );
        }
        let msg_bytes = match memory_mapping.load_bytes(msg_ptr, msg_len as usize) {
            Ok(b) => b,
            Err(_) => {
                return Err(
                    TosVmError::SyscallError {
                        syscall: "tos_log".to_owned(),
                        reason: "message bytes are not mapped for loading".to_owned(),
                    },
                );
            },
        };
        let _msg = match string_from_utf8(msg_bytes) {
            Some(s) => s,
            None => {
                return Err(
                    TosVmError::SyscallError {
                        syscall: "tos_log".to_owned(),
                        reason: "message is not valid UTF-8".to_owned(),
                    },
                );
            },
        };
        context.consume(msg_len);
        Ok(0)
    }
}

/// The names under which the syscall registry binds the handlers, in the
/// order the registry registers them.
pub fn syscall_names() -> (names: Vec<&'static str>)
    ensures
        names@.len() == 13,
        names@[0]@ == "tos_log"@,
        names@[1]@ == "tos_get_block_hash"@,
        names@[2]@ == "tos_get_block_height"@,
        names@[3]@ == "tos_get_tx_hash"@,
        names@[4]@ == "tos_get_tx_sender"@,
        names@[5]@ == "tos_get_contract_hash"@,
        names@[6]@ == "tos_get_balance"@,
        names@[7]@ == "tos_transfer"@,
        names@[8]@ == "tos_storage_read"@,
        names@[9]@ == "tos_storage_write"@,
        names@[10]@ == "tos_storage_delete"@,
        names@[11]@ == "tos_set_return_data"@,
        names@[12]@ == "tos_get_return_data"@,
{
    let mut names: Vec<&'static str> = Vec::new();
    names.push("tos_log");
    names.push("tos_get_block_hash");
    names.push("tos_get_block_height");
    names.push("tos_get_tx_hash");
    names.push("tos_get_tx_sender");
    names.push("tos_get_contract_hash");
    names.push("tos_get_balance");
    names.push("tos_transfer");
    names.push("tos_storage_read");
    names.push("tos_storage_write");
    names.push("tos_storage_delete");
    names.push("tos_set_return_data");
    names.push("tos_get_return_data");
    names
}

} // verus!
