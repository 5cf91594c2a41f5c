//! Balance and transfer syscalls.

use vstd::prelude::*;
use crate::invoke_context::{InvokeContext, ContextModel, spec_charge};
use crate::memory::{MemoryMapping, MemoryTranslationError, translate_slice, spec_translate_slice, bytes32_from_slice};
use crate::storage::{StorageProvider, AccountProvider, PortError, spec_balance_of, spec_transfer};

verus! {

/// Syscall error types.
#[derive(Debug, PartialEq, Eq)]
pub enum SyscallError {
    /// Invalid address format.
    InvalidAddress,
    /// Insufficient balance for transfer.
    InsufficientBalance,
    /// Invalid transfer amount.
    InvalidAmount,
    /// Insufficient compute units remaining.
    OutOfComputeUnits,
    /// Guest memory translation failed.
    MemoryFault(MemoryTranslationError),
    /// The account port refused the operation.
    Port(PortError),
}

/// Compute units charged for a balance query.
pub const BALANCE_QUERY_COST: u64 = 100;

/// Compute units charged for a transfer.
pub const TRANSFER_COST: u64 = 500;

/// Handler of the `tos_get_balance` syscall.
pub struct TosGetBalance;

/// Handler of the `tos_transfer` syscall.
pub struct TosTransfer;

impl TosGetBalance {
    /// Get the balance of the account whose 32-byte address lies at
    /// `address_ptr`; charges [`BALANCE_QUERY_COST`], then delegates to the
    /// account port.
    pub fn rust<S: StorageProvider, A: AccountProvider>(
        invoke_context: &mut InvokeContext<S, A>,
        address_ptr: u64,
        _arg2: u64,
        _arg3: u64,
        _arg4: u64,
        _arg5: u64,
        memory_mapping: &mut MemoryMapping,
    ) -> (r: Result<u64, SyscallError>)
        ensures
            final(memory_mapping)@ == old(memory_mapping)@,
            final(invoke_context)@ == (ContextModel {
                compute_remaining: final(invoke_context)@.compute_remaining,
                ..old(invoke_context)@
            }),
            ({
                let m0 = old(invoke_context)@;
                if BALANCE_QUERY_COST > m0.compute_remaining {
                    r == Err::<u64, SyscallError>(SyscallError::OutOfComputeUnits)
                        && final(invoke_context)@ == m0
                } else {
                    final(invoke_context)@ == spec_charge(m0, BALANCE_QUERY_COST) && match
                        spec_translate_slice(old(memory_mapping)@, address_ptr, 32) {
                        Ok(addr) => A::obeys_model() ==> r == Ok::<u64, SyscallError>(
                            spec_balance_of(m0.balances, addr),
                        ),
                        Err(e) => r == Err::<u64, SyscallError>(SyscallError::MemoryFault(e)),
                    }
                }
            }),
    {
        if invoke_context.consume_checked(BALANCE_QUERY_COST).is_err() {
            return Err(SyscallError::OutOfComputeUnits);
        }
        let address_bytes = match translate_slice(memory_mapping, address_ptr, 32, false) {
            Ok(b) => b,
            Err(e) => {
                return Err(SyscallError::MemoryFault(e));
            },
        };
        let address = bytes32_from_slice(address_bytes.as_slice());
        match invoke_context.get_balance(&address) {
            Ok(balance) => Ok(balance),
            Err(e) => Err(SyscallError::Port(e)),
        }
    }
}

impl TosTransfer {
    /// Transfer `amount` tokens from the executing contract to the recipient
    /// whose 32-byte address lies at `recipient_ptr`.
    ///
    /// A zero amount is rejected before any compute is charged and before
    /// the account port is reached; otherwise [`TRANSFER_COST`] is charged,
    /// the recipient address is translated, and the transfer is delegated to
    /// the port, whose insufficient-funds semantics are its own.
    pub fn rust<S: StorageProvider, A: AccountProvider>(
        invoke_context: &mut InvokeContext<S, A>,
        recipient_ptr: u64,
        amount: u64,
        _arg3: u64,
        _arg4: u64,
        _arg5: u64,
        memory_mapping: &mut MemoryMapping,
    ) -> (r: Result<u64, SyscallError>)
        ensures
            final(memory_mapping)@ == old(memory_mapping)@,
            final(invoke_context)@ == (ContextModel {
                compute_remaining: final(invoke_context)@.compute_remaining,
                balances: final(invoke_context)@.balances,
                ..old(invoke_context)@
            }),
            ({
                let m0 = old(invoke_context)@;
                if amount == 0 {
                    r == Err::<u64, SyscallError>(SyscallError::InvalidAmount)
                        && final(invoke_context)@ == m0
                } else if TRANSFER_COST > m0.compute_remaining {
                    r == Err::<u64, SyscallError>(SyscallError::OutOfComputeUnits)
                        && final(invoke_context)@ == m0
                } else {
                    let charged = spec_charge(m0, TRANSFER_COST);
                    final(invoke_context)@.compute_remaining == charged.compute_remaining && match
                        spec_translate_slice(old(memory_mapping)@, recipient_ptr, 32) {
                        Ok(recipient) => A::obeys_model() ==> match r {
                            Ok(code) => code == 0 && (spec_transfer(
                                m0.balances,
                                m0.contract_hash,
                                recipient,
                                amount,
                            ) matches Some(b2) && final(invoke_context)@.balances == b2),
                            Err(e) => e is Port && final(invoke_context)@.balances == m0.balances,
                        },
                        Err(e) => r == Err::<u64, SyscallError>(SyscallError::MemoryFault(e))
                            && final(invoke_context)@ == charged,
                    }
                }
            }),
    {
        if amount == 0 {
            return Err(SyscallError::InvalidAmount);
        }
        if invoke_context.consume_checked(TRANSFER_COST).is_err() {
            return Err(SyscallError::OutOfComputeUnits);
        }
        let recipient_bytes = match translate_slice(memory_mapping, recipient_ptr, 32, false) {
            Ok(b) => b,
            Err(e) => {
                return Err(SyscallError::MemoryFault(e));
            },
        };
        let recipient = bytes32_from_slice(recipient_bytes.as_slice());
        match invoke_context.transfer(&recipient, amount) {
            Ok(_) => Ok(0),
            Err(e) => Err(SyscallError::Port(e)),
        }
    }
}

} // verus!
