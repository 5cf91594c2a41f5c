//! Return-data syscalls: contracts leave a payload for their caller and read
//! back the payload of the last invocation.

use vstd::prelude::*;
use vstd::slice::slice_subrange;
use crate::invoke_context::{InvokeContext, ContextModel, spec_charge};
use crate::memory::{MemoryMapping, MemoryTranslationError, translate_slice, spec_translate_slice, spec_store};
use crate::storage::{StorageProvider, AccountProvider};

verus! {

/// Syscall error types.
#[derive(Debug, Clone, Copy, PartialEq, Eq, Structural)]
pub enum SyscallError {
    /// Return data is too large: its length and the maximum.
    ReturnDataTooLarge(usize, usize),
    /// Buffer too small: the bytes needed and the bytes available.
    BufferTooSmall(usize, u64),
    /// Insufficient compute units remaining.
    OutOfComputeUnits,
    /// Guest memory translation failed.
    MemoryFault(MemoryTranslationError),
}

/// Maximum return data size in bytes.
pub const MAX_RETURN_DATA: u64 = 1024;

/// Base compute cost of setting return data.
pub const RETURN_DATA_SET_BASE_COST: u64 = 100;

/// Compute cost of reading return data.
pub const RETURN_DATA_GET_COST: u64 = 50;

/// Compute cost per byte of return data set.
pub const RETURN_DATA_SET_BYTE_COST: u64 = 1;

/// Handler of the `tos_set_return_data` syscall.
pub struct TosSetReturnData;

/// Handler of the `tos_get_return_data` syscall.
pub struct TosGetReturnData;

impl TosSetReturnData {
    /// Replace the return-data slot with the bytes at `data_ptr`, recorded
    /// under the executing contract's hash; a payload over
    /// [`MAX_RETURN_DATA`] bytes is rejected before any compute is charged,
    /// and the previously stored data is then kept.
    pub fn rust<S: StorageProvider, A: AccountProvider>(
        invoke_context: &mut InvokeContext<S, A>,
        data_ptr: u64,
        data_len: u64,
        _arg3: u64,
        _arg4: u64,
        _arg5: u64,
        memory_mapping: &mut MemoryMapping,
    ) -> (r: Result<u64, SyscallError>)
        ensures
            final(memory_mapping)@ == old(memory_mapping)@,
            ({
                let m0 = old(invoke_context)@;
                if data_len > MAX_RETURN_DATA {
                    r == Err::<u64, SyscallError>(
                        SyscallError::ReturnDataTooLarge(
                            data_len as usize,
                            MAX_RETURN_DATA as usize,
                        ),
                    ) && final(invoke_context)@ == m0
                } else {
                    let cost = (RETURN_DATA_SET_BASE_COST + data_len
                        * RETURN_DATA_SET_BYTE_COST) as u64;
                    if cost > m0.compute_remaining {
                        r == Err::<u64, SyscallError>(SyscallError::OutOfComputeUnits)
                            && final(invoke_context)@ == m0
                    } else {
                        let charged = spec_charge(m0, cost);
                        match spec_translate_slice(old(memory_mapping)@, data_ptr, data_len) {
                            Ok(b) => r == Ok::<u64, SyscallError>(0) && final(invoke_context)@
                                == (ContextModel {
                                return_data: Some((m0.contract_hash, b)),
                                ..charged
                            }),
                            Err(e) => r == Err::<u64, SyscallError>(SyscallError::MemoryFault(e))
                                && final(invoke_context)@ == charged,
                        }
                    }
                }
            }),
    {
        if data_len > MAX_RETURN_DATA {
            return Err(
                SyscallError::ReturnDataTooLarge(data_len as usize, MAX_RETURN_DATA as usize),
            );
        }
        let cost = RETURN_DATA_SET_BASE_COST + data_len * RETURN_DATA_SET_BYTE_COST;
        if invoke_context.consume_checked(cost).is_err() {
            return Err(SyscallError::OutOfComputeUnits);
        }
        let data = match translate_slice(memory_mapping, data_ptr, data_len, false) {
            Ok(b) => b,
            Err(e) => {
                return Err(SyscallError::MemoryFault(e));
            },
        };
        let program_id = invoke_context.contract_hash;
        match invoke_context.set_return_data(program_id, data) {
            Ok(_) => Ok(0),
            // the payload passed the same bound the slot enforces, so the
            // slot cannot refuse it
            Err(_) => Err(
                SyscallError::ReturnDataTooLarge(data_len as usize, MAX_RETURN_DATA as usize),
            ),
        }
    }
}

impl TosGetReturnData {
    /// Copy the stored return data into the guest buffer at `data_ptr` and
    /// the program id that set it into the 32-byte buffer at
    /// `program_id_ptr`.
    ///
    /// When the buffer is smaller than the payload, only the buffer's length
    /// is copied — silent truncation, not an error — and the payload's true
    /// length is returned regardless of how much was copied. With nothing
    /// stored, 0 is returned and no guest memory is touched.
    pub fn rust<S: StorageProvider, A: AccountProvider>(
        invoke_context: &mut InvokeContext<S, A>,
        data_ptr: u64,
        data_len: u64,
        program_id_ptr: u64,
        _arg4: u64,
        _arg5: u64,
        memory_mapping: &mut MemoryMapping,
    ) -> (r: Result<u64, SyscallError>)
        ensures
            ({
                let m0 = old(invoke_context)@;
                if RETURN_DATA_GET_COST > m0.compute_remaining {
                    r == Err::<u64, SyscallError>(SyscallError::OutOfComputeUnits)
                        && final(invoke_context)@ == m0
                        && final(memory_mapping)@ == old(memory_mapping)@
                } else {
                    final(invoke_context)@ == spec_charge(m0, RETURN_DATA_GET_COST) && match
                        m0.return_data {
                        None => r == Ok::<u64, SyscallError>(0) && final(memory_mapping)@ == old(
                            memory_mapping,
                        )@,
                        Some(stored) => {
                            let copy_len = if data_len < stored.1.len() {
                                data_len as int
                            } else {
                                stored.1.len() as int
                            };
                            if copy_len == 0 {
                                r == Ok::<u64, SyscallError>(stored.1.len() as u64)
                                    && final(memory_mapping)@ == old(memory_mapping)@
                            } else {
                                match spec_store(
                                    old(memory_mapping)@,
                                    data_ptr as int,
                                    stored.1.subrange(0, copy_len),
                                ) {
                                    None => r == Err::<u64, SyscallError>(
                                        SyscallError::MemoryFault(
                                            MemoryTranslationError::AccessViolation {
                                                address: data_ptr,
                                            },
                                        ),
                                    ) && final(memory_mapping)@ == old(memory_mapping)@,
                                    Some(m1) => match spec_store(
                                        m1,
                                        program_id_ptr as int,
                                        stored.0,
                                    ) {
                                        None => r == Err::<u64, SyscallError>(
                                            SyscallError::MemoryFault(
                                                MemoryTranslationError::AccessViolation {
                                                    address: program_id_ptr,
                                                },
                                            ),
                                        ) && final(memory_mapping)@ == m1,
                                        Some(m2) => r == Ok::<u64, SyscallError>(
                                            stored.1.len() as u64,
                                        ) && final(memory_mapping)@ == m2,
                                    },
                                }
                            }
                        },
                    }
                }
            }),
    {
        if invoke_context.consume_checked(RETURN_DATA_GET_COST).is_err() {
            return Err(SyscallError::OutOfComputeUnits);
        }
        match invoke_context.get_return_data() {
            Some((program_id, data)) => {
                let actual_len = data.len() as u64;
                let length_to_copy = if data_len < actual_len {
                    data_len
                } else {
                    actual_len
                };
                if length_to_copy != 0 {
                    let chunk = slice_subrange(data.as_slice(), 0, length_to_copy as usize);
                    match memory_mapping.write_bytes(data_ptr, chunk) {
                        Ok(_) => (),
                        Err(e) => {
                            return Err(SyscallError::MemoryFault(e));
                        },
                    }
                    match memory_mapping.write_bytes(program_id_ptr, program_id.as_slice()) {
                        Ok(_) => (),
                        Err(e) => {
                            return Err(SyscallError::MemoryFault(e));
                        },
                    }
                }
                Ok(actual_len)
            },
            None => Ok(0),
        }
    }
}

} // verus!
