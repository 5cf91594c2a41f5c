//! Storage syscalls: read, write and delete contract key-value state.

use vstd::prelude::*;
use crate::invoke_context::{InvokeContext, ContextModel, spec_charge};
use crate::memory::{MemoryMapping, MemoryTranslationError, translate_slice, spec_translate_slice, spec_store};
use crate::storage::{StorageProvider, AccountProvider, PortError};

verus! {

/// Syscall error types.
#[derive(Debug, PartialEq, Eq)]
pub enum SyscallError {
    /// Storage key is too large: its length and the maximum.
    KeyTooLarge(u64, u64),
    /// Storage value is too large: its length and the maximum.
    ValueTooLarge(u64, u64),
    /// Storage key not found.
    KeyNotFound,
    /// Output buffer too small: the bytes needed and the bytes available.
    BufferTooSmall(usize, u64),
    /// Insufficient compute units remaining.
    OutOfComputeUnits,
    /// Guest memory translation failed.
    MemoryFault(MemoryTranslationError),
    /// The storage port refused the operation.
    Port(PortError),
}

/// Maximum storage key size in bytes.
pub const MAX_KEY_SIZE: u64 = 256;

/// Maximum storage value size in bytes.
pub const MAX_VALUE_SIZE: u64 = 65_536;

/// Base compute cost of a storage read.
pub const STORAGE_READ_BASE_COST: u64 = 200;

/// Base compute cost of a storage write.
pub const STORAGE_WRITE_BASE_COST: u64 = 500;

/// Compute cost of a storage delete.
pub const STORAGE_DELETE_COST: u64 = 300;

/// Compute cost per byte read from storage.
pub const STORAGE_READ_BYTE_COST: u64 = 1;

/// Compute cost per byte written to storage.
pub const STORAGE_WRITE_BYTE_COST: u64 = 2;

/// Cost of a storage read that found a value of `value_len` bytes: the base
/// cost plus one unit per byte, saturating at the largest charge.
pub open spec fn spec_read_cost(value_len: nat) -> u64 {
    if STORAGE_READ_BASE_COST + value_len * STORAGE_READ_BYTE_COST <= u64::MAX {
        (STORAGE_READ_BASE_COST + value_len * STORAGE_READ_BYTE_COST) as u64
    } else {
        u64::MAX
    }
}

/// Cost of a storage write of `value_len` bytes: the base cost plus two
/// units per byte.
pub open spec fn spec_write_cost(value_len: u64) -> u64
    recommends
        value_len <= MAX_VALUE_SIZE,
{
    (STORAGE_WRITE_BASE_COST + value_len * STORAGE_WRITE_BYTE_COST) as u64
}

/// Handler of the `tos_storage_read` syscall.
pub struct TosStorageRead;

/// Handler of the `tos_storage_write` syscall.
pub struct TosStorageWrite;

/// Handler of the `tos_storage_delete` syscall.
pub struct TosStorageDelete;

impl TosStorageRead {
    /// Read the value stored under the key at `key_ptr` into the guest
    /// buffer at `output_ptr`, returning the value's length; an absent key
    /// charges only the base cost and returns 0.
    ///
    /// The charge depends on the value found, so the port is queried first;
    /// a value larger than the output buffer is rejected after charging,
    /// before anything is written.
    pub fn rust<S: StorageProvider, A: AccountProvider>(
        invoke_context: &mut InvokeContext<S, A>,
        key_ptr: u64,
        key_len: u64,
        output_ptr: u64,
        output_len: u64,
        _arg5: u64,
        memory_mapping: &mut MemoryMapping,
    ) -> (r: Result<u64, SyscallError>)
        ensures
            final(invoke_context)@ == (ContextModel {
                compute_remaining: final(invoke_context)@.compute_remaining,
                ..old(invoke_context)@
            }),
            ({
                let m0 = old(invoke_context)@;
                if key_len > MAX_KEY_SIZE {
                    r == Err::<u64, SyscallError>(SyscallError::KeyTooLarge(key_len, MAX_KEY_SIZE))
                        && final(invoke_context)@ == m0
                        && final(memory_mapping)@ == old(memory_mapping)@
                } else {
                    match spec_translate_slice(old(memory_mapping)@, key_ptr, key_len) {
                        Err(e) => r == Err::<u64, SyscallError>(SyscallError::MemoryFault(e))
                            && final(invoke_context)@ == m0
                            && final(memory_mapping)@ == old(memory_mapping)@,
                        Ok(key) => S::obeys_model() ==> {
                            let scoped = (m0.contract_hash, key);
                            if m0.storage.contains_key(scoped) {
                                let value = m0.storage[scoped];
                                let cost = spec_read_cost(value.len());
                                if cost > m0.compute_remaining {
                                    r == Err::<u64, SyscallError>(SyscallError::OutOfComputeUnits)
                                        && final(invoke_context)@ == m0
                                        && final(memory_mapping)@ == old(memory_mapping)@
                                } else {
                                    final(invoke_context)@ == spec_charge(m0, cost) && (
                                    if output_len < value.len() {
                                        r == Err::<u64, SyscallError>(
                                            SyscallError::BufferTooSmall(
                                                value.len() as usize,
                                                output_len,
                                            ),
                                        ) && final(memory_mapping)@ == old(memory_mapping)@
                                    } else {
                                        match spec_store(
                                            old(memory_mapping)@,
                                            output_ptr as int,
                                            value,
                                        ) {
                                            Some(m2) => r == Ok::<u64, SyscallError>(
                                                value.len() as u64,
                                            ) && final(memory_mapping)@ == m2,
                                            None => r == Err::<u64, SyscallError>(
                                                SyscallError::MemoryFault(
                                                    MemoryTranslationError::AccessViolation {
                                                        address: output_ptr,
                                                    },
                                                ),
                                            ) && final(memory_mapping)@ == old(memory_mapping)@,
                                        }
                                    })
                                }
                            } else {
                                if STORAGE_READ_BASE_COST > m0.compute_remaining {
                                    r == Err::<u64, SyscallError>(SyscallError::OutOfComputeUnits)
                                        && final(invoke_context)@ == m0
                                        && final(memory_mapping)@ == old(memory_mapping)@
                                } else {
                                    r == Ok::<u64, SyscallError>(0)
                                        && final(invoke_context)@ == spec_charge(
                                        m0,
                                        STORAGE_READ_BASE_COST,
                                    )
                                        && final(memory_mapping)@ == old(memory_mapping)@
                                }
                            }
                        },
                    }
                }
            }),
    {
        if key_len > MAX_KEY_SIZE {
            return Err(SyscallError::KeyTooLarge(key_len, MAX_KEY_SIZE));
        }
        let key = match translate_slice(memory_mapping, key_ptr, key_len, false) {
            Ok(b) => b,
            Err(e) => {
                return Err(SyscallError::MemoryFault(e));
            },
        };
        let value = match invoke_context.get_storage(key.as_slice()) {
            Ok(v) => v,
            Err(e) => {
                return Err(SyscallError::Port(e));
            },
        };
        match value {
            Some(data) => {
                let value_len = data.len() as u64;
                let cost = if value_len <= u64::MAX - STORAGE_READ_BASE_COST {
                    STORAGE_READ_BASE_COST + value_len * STORAGE_READ_BYTE_COST
                } else {
                    u64::MAX
                };
                if invoke_context.consume_checked(cost).is_err() {
                    return Err(SyscallError::OutOfComputeUnits);
                }
                if output_len < value_len {
                    return Err(SyscallError::BufferTooSmall(data.len(), output_len));
                }
                match memory_mapping.write_bytes(output_ptr, data.as_slice()) {
                    Ok(_) => Ok(value_len),
                    Err(e) => Err(SyscallError::MemoryFault(e)),
                }
            },
            None => {
                if invoke_context.consume_checked(STORAGE_READ_BASE_COST).is_err() {
                    return Err(SyscallError::OutOfComputeUnits);
                }
                Ok(0)
            },
        }
    }
}

impl TosStorageWrite {
    /// Store the value at `value_ptr` under the key at `key_ptr`, scoped by
    /// the executing contract; charges [`STORAGE_WRITE_BASE_COST`] plus
    /// [`STORAGE_WRITE_BYTE_COST`] per value byte, then translates both
    /// ranges and delegates to the storage port. Returns 0 on success.
    pub fn rust<S: StorageProvider, A: AccountProvider>(
        invoke_context: &mut InvokeContext<S, A>,
        key_ptr: u64,
        key_len: u64,
        value_ptr: u64,
        value_len: u64,
        _arg5: u64,
        memory_mapping: &mut MemoryMapping,
    ) -> (r: Result<u64, SyscallError>)
        ensures
            final(memory_mapping)@ == old(memory_mapping)@,
            final(invoke_context)@ == (ContextModel {
                compute_remaining: final(invoke_context)@.compute_remaining,
                storage: final(invoke_context)@.storage,
                ..old(invoke_context)@
            }),
            ({
                let m0 = old(invoke_context)@;
                if key_len > MAX_KEY_SIZE {
                    r == Err::<u64, SyscallError>(SyscallError::KeyTooLarge(key_len, MAX_KEY_SIZE))
                        && final(invoke_context)@ == m0
                } else if value_len > MAX_VALUE_SIZE {
                    r == Err::<u64, SyscallError>(
                        SyscallError::ValueTooLarge(value_len, MAX_VALUE_SIZE),
                    ) && final(invoke_context)@ == m0
                } else if spec_write_cost(value_len) > m0.compute_remaining {
                    r == Err::<u64, SyscallError>(SyscallError::OutOfComputeUnits)
                        && final(invoke_context)@ == m0
                } else {
                    let charged = spec_charge(m0, spec_write_cost(value_len));
                    final(invoke_context)@.compute_remaining == charged.compute_remaining && match
                        spec_translate_slice(old(memory_mapping)@, key_ptr, key_len) {
                        Err(e) => r == Err::<u64, SyscallError>(SyscallError::MemoryFault(e))
                            && final(invoke_context)@ == charged,
                        Ok(key) => match spec_translate_slice(
                            old(memory_mapping)@,
                            value_ptr,
                            value_len,
                        ) {
                            Err(e) => r == Err::<u64, SyscallError>(SyscallError::MemoryFault(e))
                                && final(invoke_context)@ == charged,
                            Ok(value) => S::obeys_model() ==> r == Ok::<u64, SyscallError>(0)
                                && final(invoke_context)@.storage == m0.storage.insert(
                                (m0.contract_hash, key),
                                value,
                            ),
                        },
                    }
                }
            }),
    {
        if key_len > MAX_KEY_SIZE {
            return Err(SyscallError::KeyTooLarge(key_len, MAX_KEY_SIZE));
        }
        if value_len > MAX_VALUE_SIZE {
            return Err(SyscallError::ValueTooLarge(value_len, MAX_VALUE_SIZE));
        }
        let cost = STORAGE_WRITE_BASE_COST + value_len * STORAGE_WRITE_BYTE_COST;
        if invoke_context.consume_checked(cost).is_err() {
            return Err(SyscallError::OutOfComputeUnits);
        }
        let key = match translate_slice(memory_mapping, key_ptr, key_len, false) {
            Ok(b) => b,
            Err(e) => {
                return Err(SyscallError::MemoryFault(e));
            },
        };
        let value = match translate_slice(memory_mapping, value_ptr, value_len, false) {
            Ok(b) => b,
            Err(e) => {
                return Err(SyscallError::MemoryFault(e));
            },
        };
        match invoke_context.set_storage(key.as_slice(), value.as_slice()) {
            Ok(_) => Ok(0),
            Err(e) => Err(SyscallError::Port(e)),
        }
    }
}

impl TosStorageDelete {
    /// Delete the key at `key_ptr` from the executing contract's storage;
    /// charges [`STORAGE_DELETE_COST`], then delegates to the storage port.
    /// Returns 1 when the key existed and 0 when it did not.
    pub fn rust<S: StorageProvider, A: AccountProvider>(
        invoke_context: &mut InvokeContext<S, A>,
        key_ptr: u64,
        key_len: u64,
        _arg3: u64,
        _arg4: u64,
        _arg5: u64,
        memory_mapping: &mut MemoryMapping,
    ) -> (r: Result<u64, SyscallError>)
        ensures
            final(memory_mapping)@ == old(memory_mapping)@,
            final(invoke_context)@ == (ContextModel {
                compute_remaining: final(invoke_context)@.compute_remaining,
                storage: final(invoke_context)@.storage,
                ..old(invoke_context)@
            }),
            ({
                let m0 = old(invoke_context)@;
                if key_len > MAX_KEY_SIZE {
                    r == Err::<u64, SyscallError>(SyscallError::KeyTooLarge(key_len, MAX_KEY_SIZE))
                        && final(invoke_context)@ == m0
                } else if STORAGE_DELETE_COST > m0.compute_remaining {
                    r == Err::<u64, SyscallError>(SyscallError::OutOfComputeUnits)
                        && final(invoke_context)@ == m0
                } else {
                    let charged = spec_charge(m0, STORAGE_DELETE_COST);
                    final(invoke_context)@.compute_remaining == charged.compute_remaining && match
                        spec_translate_slice(old(memory_mapping)@, key_ptr, key_len) {
                        Err(e) => r == Err::<u64, SyscallError>(SyscallError::MemoryFault(e))
                            && final(invoke_context)@ == charged,
                        Ok(key) => S::obeys_model() ==> {
                            let scoped = (m0.contract_hash, key);
                            r == Ok::<u64, SyscallError>(
                                if m0.storage.contains_key(scoped) {
                                    1u64
                                } else {
                                    0u64
                                },
                            ) && final(invoke_context)@.storage == m0.storage.remove(scoped)
                        },
                    }
                }
            }),
    {
        if key_len > MAX_KEY_SIZE {
            return Err(SyscallError::KeyTooLarge(key_len, MAX_KEY_SIZE));
        }
        if invoke_context.consume_checked(STORAGE_DELETE_COST).is_err() {
            return Err(SyscallError::OutOfComputeUnits);
        }
        let key = match translate_slice(memory_mapping, key_ptr, key_len, false) {
            Ok(b) => b,
            Err(e) => {
                return Err(SyscallError::MemoryFault(e));
            },
        };
        match invoke_context.delete_storage(key.as_slice()) {
            Ok(existed) => Ok(
                if existed {
                    1
                } else {
                    0
                },
            ),
            Err(e) => Err(SyscallError::Port(e)),
        }
    }
}

} // verus!
