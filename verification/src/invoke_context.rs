//! Program invocation context.
//!
//! One context is created per top-level contract invocation. It owns the
//! compute meter, the per-invocation chain state, the return-data slot and a
//! debug log sink, and reaches chain state through the two ports the host
//! supplies. The engine charges compute through `consume`; syscalls charge
//! through `consume_checked` and delegate effects through the ports.

use vstd::prelude::*;
use vstd::slice::slice_to_vec;
use crate::storage::{StorageProvider, AccountProvider, PortError, spec_balance_of, spec_transfer};

verus! {

broadcast use vstd::array::group_array_axioms;

/// Largest return-data payload a contract may leave, in bytes.
pub const MAX_RETURN_DATA: usize = 1024;

/// Failures of the context's own bookkeeping: the compute meter and the
/// return-data slot.
#[derive(Debug, Clone, Copy, PartialEq, Eq, Structural)]
pub enum ContextError {
    /// The compute budget cannot pay for the requested operation.
    OutOfComputeUnits,
    /// The return-data payload exceeds the fixed maximum.
    ReturnDataTooLarge,
}

/// The mathematical model of an invocation context: its meter, chain state,
/// port contents, return-data slot and emitted debug messages.
pub struct ContextModel {
    /// Compute units granted for the invocation.
    pub compute_budget: u64,
    /// Compute units still unspent.
    pub compute_remaining: u64,
    /// Hash of the contract being executed.
    pub contract_hash: Seq<u8>,
    /// Current block hash.
    pub block_hash: Seq<u8>,
    /// Current block height.
    pub block_height: u64,
    /// Hash of the transaction being executed.
    pub tx_hash: Seq<u8>,
    /// Public key of the transaction sender.
    pub tx_sender: Seq<u8>,
    /// The storage port's contents, as the port's own view.
    pub storage: Map<(Seq<u8>, Seq<u8>), Seq<u8>>,
    /// The account port's balances, as the port's own view.
    pub balances: Map<Seq<u8>, u64>,
    /// Whether debug logging is on.
    pub debug_mode: bool,
    /// The return-data slot: a program id and a payload, or nothing.
    pub return_data: Option<(Seq<u8>, Seq<u8>)>,
    /// Debug messages emitted so far, for the host to display.
    pub logs: Seq<Seq<char>>,
}

impl ContextModel {
    /// Compute units spent so far; never negative however the meter moved.
    pub open spec fn consumed(&self) -> u64 {
        if self.compute_remaining <= self.compute_budget {
            (self.compute_budget - self.compute_remaining) as u64
        } else {
            0
        }
    }
}

/// The context model after a successful charge of `cost` compute units.
pub open spec fn spec_charge(m: ContextModel, cost: u64) -> ContextModel
    recommends
        cost <= m.compute_remaining,
{
    ContextModel { compute_remaining: (m.compute_remaining - cost) as u64, ..m }
}

/// A sequence of 32 zero bytes: the placeholder chain state of a context
/// built without one.
pub open spec fn zeroed_id() -> Seq<u8> {
    Seq::new(32, |i: int| 0u8)
}

/// Program invocation context: the execution context handed to the engine
/// and to every syscall, generic over the two host-supplied ports.
pub struct InvokeContext<S: StorageProvider, A: AccountProvider> {
    /// Compute units granted for the invocation.
    pub compute_budget: u64,
    /// Compute units still unspent.
    pub compute_meter: u64,
    /// Hash of the contract being executed.
    pub contract_hash: [u8; 32],
    /// Current block hash.
    pub block_hash: [u8; 32],
    /// Current block height.
    pub block_height: u64,
    /// Hash of the transaction being executed.
    pub tx_hash: [u8; 32],
    /// Public key of the transaction sender.
    pub tx_sender: [u8; 32],
    /// The storage port the host supplied.
    pub storage: S,
    /// The account port the host supplied.
    pub accounts: A,
    /// Whether debug logging is on; settable before execution.
    pub debug_mode: bool,
    /// The return-data slot: a program id and a payload of at most
    /// [`MAX_RETURN_DATA`] bytes.
    pub return_data: Option<([u8; 32], Vec<u8>)>,
    /// Debug messages emitted so far, for the host to display.
    pub logs: Vec<String>,
}

impl<S: StorageProvider, A: AccountProvider> View for InvokeContext<S, A> {
    type V = ContextModel;

    open spec fn view(&self) -> ContextModel {
        ContextModel {
            compute_budget: self.compute_budget,
            compute_remaining: self.compute_meter,
            contract_hash: self.contract_hash@,
            block_hash: self.block_hash@,
            block_height: self.block_height,
            tx_hash: self.tx_hash@,
            tx_sender: self.tx_sender@,
            storage: self.storage.view(),
            balances: self.accounts.view(),
            debug_mode: self.debug_mode,
            return_data: match self.return_data {
                Some((pid, d)) => Some((pid@, d@)),
                None => None,
            },
            logs: self.logs@.map_values(|s: String| s@),
        }
    }
}

impl<S: StorageProvider, A: AccountProvider> InvokeContext<S, A> {
    /// Creates a context with the given budget and contract, zeroed chain
    /// state, debug logging off and an empty return-data slot.
    pub fn new(compute_budget: u64, contract_hash: [u8; 32], storage: S, accounts: A) -> (r: Self)
        ensures
            r@ == (ContextModel {
                compute_budget,
                compute_remaining: compute_budget,
                contract_hash: contract_hash@,
                block_hash: zeroed_id(),
                block_height: 0,
                tx_hash: zeroed_id(),
                tx_sender: zeroed_id(),
                storage: storage.view(),
                balances: accounts.view(),
                debug_mode: false,
                return_data: None::<(Seq<u8>, Seq<u8>)>,
                logs: Seq::<Seq<char>>::empty(),
            }),
    {
        let r = InvokeContext {
            compute_budget,
            compute_meter: compute_budget,
            contract_hash,
            block_hash: [0u8; 32],
            block_height: 0,
            tx_hash: [0u8; 32],
            tx_sender: [0u8; 32],
            storage,
            accounts,
            debug_mode: false,
            return_data: None,
            logs: Vec::new(),
        };
        proof {
            assert(r.block_hash@ =~= zeroed_id());
            assert(r.tx_hash@ =~= zeroed_id());
            assert(r.tx_sender@ =~= zeroed_id());
            assert(r@.logs =~= Seq::<Seq<char>>::empty());
        }
        r
    }

    /// Creates a context with the full per-invocation chain state.
    pub fn new_with_state(
        compute_budget: u64,
        contract_hash: [u8; 32],
        block_hash: [u8; 32],
        block_height: u64,
        tx_hash: [u8; 32],
        tx_sender: [u8; 32],
        storage: S,
        accounts: A,
    ) -> (r: Self)
        ensures
            r@ == (ContextModel {
                compute_budget,
                compute_remaining: compute_budget,
                contract_hash: contract_hash@,
                block_hash: block_hash@,
                block_height,
                tx_hash: tx_hash@,
                tx_sender: tx_sender@,
                storage: storage.view(),
                balances: accounts.view(),
                debug_mode: false,
                return_data: None::<(Seq<u8>, Seq<u8>)>,
                logs: Seq::<Seq<char>>::empty(),
            }),
    {
        let r = InvokeContext {
            compute_budget,
            compute_meter: compute_budget,
            contract_hash,
            block_hash,
            block_height,
            tx_hash,
            tx_sender,
            storage,
            accounts,
            debug_mode: false,
            return_data: None,
            logs: Vec::new(),
        };
        proof {
            assert(r@.logs =~= Seq::<Seq<char>>::empty());
        }
        r
    }

    /// Enable debug mode: the log syscall's messages are then emitted.
    pub fn enable_debug(&mut self)
        ensures
            final(self)@ == (ContextModel { debug_mode: true, ..old(self)@ }),
    {
        self.debug_mode = true;
    }

    /// The compute budget the invocation started with.
    pub fn get_compute_budget(&self) -> (r: u64)
        ensures
            r == self@.compute_budget,
    {
        self.compute_budget
    }

    /// Compute units consumed so far.
    pub fn get_compute_units_consumed(&self) -> (r: u64)
        ensures
            r == self@.consumed(),
    {
        if self.compute_meter <= self.compute_budget {
            self.compute_budget - self.compute_meter
        } else {
            0
        }
    }

    /// Charge `amount` compute units, refusing the whole charge when the
    /// meter cannot pay it: on failure the meter is unchanged.
    pub fn consume_checked(&mut self, amount: u64) -> (r: Result<(), ContextError>)
        ensures
            amount <= old(self)@.compute_remaining ==> r == Ok::<(), ContextError>(())
                && final(self)@ == (ContextModel {
                compute_remaining: (old(self)@.compute_remaining - amount) as u64,
                ..old(self)@
            }),
            amount > old(self)@.compute_remaining ==> r == Err::<(), ContextError>(
                ContextError::OutOfComputeUnits,
            ) && final(self)@ == old(self)@,
    {
        if self.compute_meter < amount {
            return Err(ContextError::OutOfComputeUnits);
        }
        self.compute_meter = self.compute_meter - amount;
        Ok(())
    }

    /// Charge `amount` compute units unconditionally, saturating at zero:
    /// the engine's per-instruction charge, which never fails.
    pub fn consume(&mut self, amount: u64)
        ensures
            final(self)@ == (ContextModel {
                compute_remaining: if amount <= old(self)@.compute_remaining {
                    (old(self)@.compute_remaining - amount) as u64
                } else {
                    0
                },
                ..old(self)@
            }),
    {
        if self.compute_meter >= amount {
            self.compute_meter = self.compute_meter - amount;
        } else {
            self.compute_meter = 0;
        }
    }

    /// Compute units still unspent.
    pub fn get_remaining(&self) -> (r: u64)
        ensures
            r == self@.compute_remaining,
    {
        self.compute_meter
    }

    /// Load a value from contract storage, scoped by this contract's hash.
    pub fn get_storage(&self, key: &[u8]) -> (r: Result<Option<Vec<u8>>, PortError>)
        ensures
            S::obeys_model() ==> match r {
                Ok(Some(v)) => self@.storage.contains_key((self@.contract_hash, key@)) && v@
                    == self@.storage[(self@.contract_hash, key@)],
                Ok(None) => !self@.storage.contains_key((self@.contract_hash, key@)),
                Err(_) => false,
            },
    {
        self.storage.get(&self.contract_hash, key)
    }

    /// Store a value to contract storage, scoped by this contract's hash.
    /// Nothing but the storage contents changes.
    pub fn set_storage(&mut self, key: &[u8], value: &[u8]) -> (r: Result<(), PortError>)
        ensures
            final(self)@ == (ContextModel { storage: final(self)@.storage, ..old(self)@ }),
            S::obeys_model() ==> r == Ok::<(), PortError>(())
                && final(self)@.storage == old(self)@.storage.insert(
                (old(self)@.contract_hash, key@),
                value@,
            ),
    {
        let contract_hash = self.contract_hash;
        self.storage.set(&contract_hash, key, value)
    }

    /// Delete a key from contract storage, scoped by this contract's hash;
    /// reports whether the key existed. Nothing but the storage contents
    /// changes.
    pub fn delete_storage(&mut self, key: &[u8]) -> (r: Result<bool, PortError>)
        ensures
            final(self)@ == (ContextModel { storage: final(self)@.storage, ..old(self)@ }),
            S::obeys_model() ==> r == Ok::<bool, PortError>(
                old(self)@.storage.contains_key((old(self)@.contract_hash, key@)),
            ) && final(self)@.storage == old(self)@.storage.remove(
                (old(self)@.contract_hash, key@),
            ),
    {
        let contract_hash = self.contract_hash;
        self.storage.delete(&contract_hash, key)
    }

    /// Get the balance of an account through the account port.
    pub fn get_balance(&self, address: &[u8; 32]) -> (r: Result<u64, PortError>)
        ensures
            A::obeys_model() ==> r == Ok::<u64, PortError>(
                spec_balance_of(self@.balances, address@),
            ),
    {
        self.accounts.get_balance(address)
    }

    /// Transfer tokens from this contract to a recipient; the source is
    /// always the executing contract. Nothing but the balances changes.
    pub fn transfer(&mut self, recipient: &[u8; 32], amount: u64) -> (r: Result<(), PortError>)
        ensures
            final(self)@ == (ContextModel { balances: final(self)@.balances, ..old(self)@ }),
            A::obeys_model() ==> match r {
                Ok(_) => spec_transfer(
                    old(self)@.balances,
                    old(self)@.contract_hash,
                    recipient@,
                    amount,
                ) matches Some(m) && final(self)@.balances == m,
                Err(_) => final(self)@.balances == old(self)@.balances,
            },
    {
        let contract_hash = self.contract_hash;
        self.accounts.transfer(&contract_hash, recipient, amount)
    }

    /// Replace the return-data slot with `(program_id, data)`; a payload
    /// over [`MAX_RETURN_DATA`] bytes is refused and the slot is unchanged.
    pub fn set_return_data(&mut self, program_id: [u8; 32], data: Vec<u8>) -> (r: Result<
        (),
        ContextError,
    >)
        ensures
            data@.len() <= MAX_RETURN_DATA ==> r == Ok::<(), ContextError>(()) && final(self)@
                == (ContextModel {
                return_data: Some((program_id@, data@)),
                ..old(self)@
            }),
            data@.len() > MAX_RETURN_DATA ==> r == Err::<(), ContextError>(
                ContextError::ReturnDataTooLarge,
            ) && final(self)@ == old(self)@,
    {
        if data.len() > MAX_RETURN_DATA {
            return Err(ContextError::ReturnDataTooLarge);
        }
        self.return_data = Some((program_id, data));
        Ok(())
    }

    /// A copy of the return-data slot, or nothing; the slot is kept.
    pub fn get_return_data(&self) -> (r: Option<([u8; 32], Vec<u8>)>)
        ensures
            match (r, self@.return_data) {
                (Some((pid, d)), Some(stored)) => pid@ == stored.0 && d@ == stored.1,
                (None, None) => true,
                _ => false,
            },
    {
        match &self.return_data {
            Some((pid, d)) => Some((*pid, slice_to_vec(d.as_slice()))),
            None => None,
        }
    }

    /// Reset the return-data slot to nothing.
    pub fn clear_return_data(&mut self)
        ensures
            final(self)@ == (ContextModel {
                return_data: None::<(Seq<u8>, Seq<u8>)>,
                ..old(self)@
            }),
    {
        self.return_data = None;
    }

    /// Append a debug message to the log sink, for the host to display.
    pub fn emit_log(&mut self, message: String)
        ensures
            final(self)@ == (ContextModel { logs: old(self)@.logs.push(message@), ..old(self)@ }),
    {
        let ghost logs0 = self@.logs;
        self.logs.push(message);
        proof {
            assert(self@.logs =~= logs0.push(self.logs@.last()@));
        }
    }

    /// The debug messages emitted so far, oldest first.
    pub fn log_messages(&self) -> (r: &Vec<String>)
        ensures
            r@.map_values(|s: String| s@) == self@.logs,
    {
        &self.logs
    }
}

} // verus!
