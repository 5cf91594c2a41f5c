//! Blockchain state syscalls: block hash, block height, transaction hash,
//! transaction sender and contract hash.

use vstd::prelude::*;
use crate::invoke_context::{InvokeContext, spec_charge};
use crate::memory::{MemoryMapping, MemoryTranslationError, spec_store};
use crate::storage::{StorageProvider, AccountProvider};

verus! {

/// Syscall error types.
#[derive(Debug, Clone, Copy, PartialEq, Eq, Structural)]
pub enum SyscallError {
    /// Invalid output buffer.
    InvalidBuffer,
    /// Insufficient compute units remaining.
    OutOfComputeUnits,
    /// Guest memory translation failed.
    MemoryFault(MemoryTranslationError),
}

/// Compute units charged for any blockchain state query.
pub const BLOCKCHAIN_QUERY_COST: u64 = 50;

/// Handler of the `tos_get_block_hash` syscall.
pub struct TosGetBlockHash;

/// Handler of the `tos_get_block_height` syscall.
pub struct TosGetBlockHeight;

/// Handler of the `tos_get_tx_hash` syscall.
pub struct TosGetTxHash;

/// Handler of the `tos_get_tx_sender` syscall.
pub struct TosGetTxSender;

/// Handler of the `tos_get_contract_hash` syscall.
pub struct TosGetContractHash;

impl TosGetBlockHash {
    /// Copy the current block hash into a 32-byte guest buffer; charges
    /// [`BLOCKCHAIN_QUERY_COST`] and returns 0 on success.
    pub fn rust<S: StorageProvider, A: AccountProvider>(
        invoke_context: &mut InvokeContext<S, A>,
        output_ptr: u64,
        _arg2: u64,
        _arg3: u64,
        _arg4: u64,
        _arg5: u64,
        memory_mapping: &mut MemoryMapping,
    ) -> (r: Result<u64, SyscallError>)
        ensures
            ({
                let m0 = old(invoke_context)@;
                if BLOCKCHAIN_QUERY_COST > m0.compute_remaining {
                    r == Err::<u64, SyscallError>(SyscallError::OutOfComputeUnits)
                        && final(invoke_context)@ == m0
                        && final(memory_mapping)@ == old(memory_mapping)@
                } else {
                    final(invoke_context)@ == spec_charge(m0, BLOCKCHAIN_QUERY_COST) && match
                        spec_store(old(memory_mapping)@, output_ptr as int, m0.block_hash) {
                        Some(m2) => r == Ok::<u64, SyscallError>(0) && final(memory_mapping)@
                            == m2,
                        None => r == Err::<u64, SyscallError>(
                            SyscallError::MemoryFault(
                                MemoryTranslationError::AccessViolation { address: output_ptr },
                            ),
                        ) && final(memory_mapping)@ == old(memory_mapping)@,
                    }
                }
            }),
    {
        if invoke_context.consume_checked(BLOCKCHAIN_QUERY_COST).is_err() {
            return Err(SyscallError::OutOfComputeUnits);
        }
        let hash = invoke_context.block_hash;
        match memory_mapping.write_bytes(output_ptr, hash.as_slice()) {
            Ok(_) => Ok(0),
            Err(e) => Err(SyscallError::MemoryFault(e)),
        }
    }
}

impl TosGetBlockHeight {
    /// Return the current block height directly; charges
    /// [`BLOCKCHAIN_QUERY_COST`] and writes no guest memory.
    pub fn rust<S: StorageProvider, A: AccountProvider>(
        invoke_context: &mut InvokeContext<S, A>,
        _arg1: u64,
        _arg2: u64,
        _arg3: u64,
        _arg4: u64,
        _arg5: u64,
        memory_mapping: &mut MemoryMapping,
    ) -> (r: Result<u64, SyscallError>)
        ensures
            final(memory_mapping)@ == old(memory_mapping)@,
            ({
                let m0 = old(invoke_context)@;
                if BLOCKCHAIN_QUERY_COST > m0.compute_remaining {
                    r == Err::<u64, SyscallError>(SyscallError::OutOfComputeUnits)
                        && final(invoke_context)@ == m0
                } else {
                    r == Ok::<u64, SyscallError>(m0.block_height) && final(invoke_context)@
                        == spec_charge(m0, BLOCKCHAIN_QUERY_COST)
                }
            }),
    {
        if invoke_context.consume_checked(BLOCKCHAIN_QUERY_COST).is_err() {
            return Err(SyscallError::OutOfComputeUnits);
        }
        Ok(invoke_context.block_height)
    }
}

impl TosGetTxHash {
    /// Copy the current transaction hash into a 32-byte guest buffer;
    /// charges [`BLOCKCHAIN_QUERY_COST`] and returns 0 on success.
    pub fn rust<S: StorageProvider, A: AccountProvider>(
        invoke_context: &mut InvokeContext<S, A>,
        output_ptr: u64,
        _arg2: u64,
        _arg3: u64,
        _arg4: u64,
        _arg5: u64,
        memory_mapping: &mut MemoryMapping,
    ) -> (r: Result<u64, SyscallError>)
        ensures
            ({
                let m0 = old(invoke_context)@;
                if BLOCKCHAIN_QUERY_COST > m0.compute_remaining {
                    r == Err::<u64, SyscallError>(SyscallError::OutOfComputeUnits)
                        && final(invoke_context)@ == m0
                        && final(memory_mapping)@ == old(memory_mapping)@
                } else {
                    final(invoke_context)@ == spec_charge(m0, BLOCKCHAIN_QUERY_COST) && match
                        spec_store(old(memory_mapping)@, output_ptr as int, m0.tx_hash) {
                        Some(m2) => r == Ok::<u64, SyscallError>(0) && final(memory_mapping)@
                            == m2,
                        None => r == Err::<u64, SyscallError>(
                            SyscallError::MemoryFault(
                                MemoryTranslationError::AccessViolation { address: output_ptr },
                            ),
                        ) && final(memory_mapping)@ == old(memory_mapping)@,
                    }
                }
            }),
    {
        if invoke_context.consume_checked(BLOCKCHAIN_QUERY_COST).is_err() {
            return Err(SyscallError::OutOfComputeUnits);
        }
        let hash = invoke_context.tx_hash;
        match memory_mapping.write_bytes(output_ptr, hash.as_slice()) {
            Ok(_) => Ok(0),
            Err(e) => Err(SyscallError::MemoryFault(e)),
        }
    }
}

impl TosGetTxSender {
    /// Copy the transaction sender's public key into a 32-byte guest buffer;
    /// charges [`BLOCKCHAIN_QUERY_COST`] and returns 0 on success.
    pub fn rust<S: StorageProvider, A: AccountProvider>(
        invoke_context: &mut InvokeContext<S, A>,
        output_ptr: u64,
        _arg2: u64,
        _arg3: u64,
        _arg4: u64,
        _arg5: u64,
        memory_mapping: &mut MemoryMapping,
    ) -> (r: Result<u64, SyscallError>)
        ensures
            ({
                let m0 = old(invoke_context)@;
                if BLOCKCHAIN_QUERY_COST > m0.compute_remaining {
                    r == Err::<u64, SyscallError>(SyscallError::OutOfComputeUnits)
                        && final(invoke_context)@ == m0
                        && final(memory_mapping)@ == old(memory_mapping)@
                } else {
                    final(invoke_context)@ == spec_charge(m0, BLOCKCHAIN_QUERY_COST) && match
                        spec_store(old(memory_mapping)@, output_ptr as int, m0.tx_sender) {
                        Some(m2) => r == Ok::<u64, SyscallError>(0) && final(memory_mapping)@
                            == m2,
                        None => r == Err::<u64, SyscallError>(
                            SyscallError::MemoryFault(
                                MemoryTranslationError::AccessViolation { address: output_ptr },
                            ),
                        ) && final(memory_mapping)@ == old(memory_mapping)@,
                    }
                }
            }),
    {
        if invoke_context.consume_checked(BLOCKCHAIN_QUERY_COST).is_err() {
            return Err(SyscallError::OutOfComputeUnits);
        }
        let sender = invoke_context.tx_sender;
        match memory_mapping.write_bytes(output_ptr, sender.as_slice()) {
            Ok(_) => Ok(0),
            Err(e) => Err(SyscallError::MemoryFault(e)),
        }
    }
}

impl TosGetContractHash {
    /// Copy the executing contract's hash into a 32-byte guest buffer;
    /// charges [`BLOCKCHAIN_QUERY_COST`] and returns 0 on success.
    pub fn rust<S: StorageProvider, A: AccountProvider>(
        invoke_context: &mut InvokeContext<S, A>,
        output_ptr: u64,
        _arg2: u64,
        _arg3: u64,
        _arg4: u64,
        _arg5: u64,
        memory_mapping: &mut MemoryMapping,
    ) -> (r: Result<u64, SyscallError>)
        ensures
            ({
                let m0 = old(invoke_context)@;
                if BLOCKCHAIN_QUERY_COST > m0.compute_remaining {
                    r == Err::<u64, SyscallError>(SyscallError::OutOfComputeUnits)
                        && final(invoke_context)@ == m0
                        && final(memory_mapping)@ == old(memory_mapping)@
                } else {
                    final(invoke_context)@ == spec_charge(m0, BLOCKCHAIN_QUERY_COST) && match
                        spec_store(old(memory_mapping)@, output_ptr as int, m0.contract_hash) {
                        Some(m2) => r == Ok::<u64, SyscallError>(0) && final(memory_mapping)@
                            == m2,
                        None => r == Err::<u64, SyscallError>(
                            SyscallError::MemoryFault(
                                MemoryTranslationError::AccessViolation { address: output_ptr },
                            ),
                        ) && final(memory_mapping)@ == old(memory_mapping)@,
                    }
                }
            }),
    {
        if invoke_context.consume_checked(BLOCKCHAIN_QUERY_COST).is_err() {
            return Err(SyscallError::OutOfComputeUnits);
        }
        let hash = invoke_context.contract_hash;
        match memory_mapping.write_bytes(output_ptr, hash.as_slice()) {
            Ok(_) => Ok(0),
            Err(e) => Err(SyscallError::MemoryFault(e)),
        }
    }
}

} // verus!
