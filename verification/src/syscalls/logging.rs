//! Logging syscall: contracts emit debug messages through `tos_log`.

use vstd::prelude::*;
use vstd::utf8::{valid_utf8, decode_utf8};
use crate::invoke_context::{InvokeContext, ContextModel, spec_charge};
use crate::memory::{MemoryMapping, MemoryTranslationError, translate_slice, spec_translate_slice, string_from_utf8};
use crate::storage::{StorageProvider, AccountProvider};

verus! {

/// Syscall error types.
#[derive(Debug, Clone, Copy, PartialEq, Eq, Structural)]
pub enum SyscallError {
    /// The message bytes are not valid UTF-8.
    InvalidString,
    /// The message exceeds the maximum length: its length and the maximum.
    MessageTooLong(u64, u64),
    /// Insufficient compute units remaining.
    OutOfComputeUnits,
    /// Guest memory translation failed.
    MemoryFault(MemoryTranslationError),
}

/// Maximum length of a log message, in bytes.
pub const MAX_LOG_LENGTH: u64 = 10_000;

/// Compute units charged for any log call.
pub const LOG_BASE_COST: u64 = 100;

/// Compute units charged per byte of log message.
pub const LOG_COST_PER_BYTE: u64 = 1;

/// Handler of the `tos_log` syscall.
pub struct TosLog;

impl TosLog {
    /// Log a UTF-8 message from the contract.
    ///
    /// The message is validated against the length limit, charged at
    /// [`LOG_BASE_COST`] plus [`LOG_COST_PER_BYTE`] per byte, read out of
    /// guest memory and checked to be UTF-8; it is then emitted into the
    /// context's log sink exactly when debug mode is on, and discarded
    /// otherwise. Returns 0 on success.
    pub fn rust<S: StorageProvider, A: AccountProvider>(
        invoke_context: &mut InvokeContext<S, A>,
        msg_ptr: u64,
        msg_len: u64,
        _arg3: u64,
        _arg4: u64,
        _arg5: u64,
        memory_mapping: &mut MemoryMapping,
    ) -> (r: Result<u64, SyscallError>)
        ensures
            final(memory_mapping)@ == old(memory_mapping)@,
            ({
                let m0 = old(invoke_context)@;
                if msg_len > MAX_LOG_LENGTH {
                    r == Err::<u64, SyscallError>(
                        SyscallError::MessageTooLong(msg_len, MAX_LOG_LENGTH),
                    ) && final(invoke_context)@ == m0
                } else {
                    let cost = (LOG_BASE_COST + msg_len * LOG_COST_PER_BYTE) as u64;
                    if cost > m0.compute_remaining {
                        r == Err::<u64, SyscallError>(SyscallError::OutOfComputeUnits)
                            && final(invoke_context)@ == m0
                    } else {
                        let charged = spec_charge(m0, cost);
                        match spec_translate_slice(old(memory_mapping)@, msg_ptr, msg_len) {
                            Ok(b) => if valid_utf8(b) {
                                r == Ok::<u64, SyscallError>(0) && final(invoke_context)@ == (
                                if m0.debug_mode {
                                    ContextModel { logs: charged.logs.push(decode_utf8(b)), ..charged }
                                } else {
                                    charged
                                })
                            } else {
                                r == Err::<u64, SyscallError>(SyscallError::InvalidString)
                                    && final(invoke_context)@ == charged
                            },
                            Err(e) => r == Err::<u64, SyscallError>(SyscallError::MemoryFault(e))
                                && final(invoke_context)@ == charged,
                        }
                    }
                }
            }),
    {
        if msg_len > MAX_LOG_LENGTH {
            return Err(SyscallError::MessageTooLong(msg_len, MAX_LOG_LENGTH));
        }
        let total_cost = LOG_BASE_COST + msg_len * LOG_COST_PER_BYTE;
        if invoke_context.consume_checked(total_cost).is_err() {
            return Err(SyscallError::OutOfComputeUnits);
        }
        let msg_bytes = match translate_slice(memory_mapping, msg_ptr, msg_len, false) {
            Ok(b) => b,
            Err(e) => {
                return Err(SyscallError::MemoryFault(e));
            },
        };
        let msg = match string_from_utf8(msg_bytes) {
            Some(s) => s,
            None => {
                return Err(SyscallError::InvalidString);
            },
        };
        if invoke_context.debug_mode {
            invoke_context.emit_log(msg);
        }
        Ok(0)
    }
}

} // verus!
