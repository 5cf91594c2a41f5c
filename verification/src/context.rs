//! Minimal execution context for the bytecode engine.
//!
//! This is the meter-only context the engine charges per-instruction costs
//! against; it carries no chain state and no ports. A full invocation uses
//! [`crate::invoke_context::InvokeContext`] instead.

use vstd::prelude::*;

verus! {

/// Meter-only execution context: a compute budget, the units remaining, and
/// a debug flag.
#[derive(Debug)]
pub struct TosContext {
    /// Compute units still unspent.
    pub remaining_compute_units: u64,
    /// Compute units granted at construction.
    pub compute_budget: u64,
    /// Whether the log syscall's output is emitted.
    pub debug_mode: bool,
}

impl TosContext {
    /// Creates a context with the whole budget unspent and debug off.
    pub fn new(compute_budget: u64) -> (r: Self)
        ensures
            r == (TosContext { remaining_compute_units: compute_budget, compute_budget, debug_mode: false }),
    {
        TosContext { remaining_compute_units: compute_budget, compute_budget, debug_mode: false }
    }

    /// Compute units consumed so far; never negative however the meter
    /// moved.
    pub fn compute_units_consumed(&self) -> (r: u64)
        ensures
            r == if self.remaining_compute_units <= self.compute_budget {
                (self.compute_budget - self.remaining_compute_units) as u64
            } else {
                0u64
            },
    {
        if self.remaining_compute_units <= self.compute_budget {
            self.compute_budget - self.remaining_compute_units
        } else {
            0
        }
    }

    /// Enable debug mode: the log syscall's messages are then emitted.
    pub fn enable_debug(&mut self)
        ensures
            *final(self) == (TosContext { debug_mode: true, ..*old(self) }),
    {
        self.debug_mode = true;
    }

    /// Charge `amount` compute units unconditionally, saturating at zero:
    /// the engine's per-instruction charge, which never fails.
    pub fn consume(&mut self, amount: u64)
        ensures
            *final(self) == (TosContext {
                remaining_compute_units: if amount <= old(self).remaining_compute_units {
                    (old(self).remaining_compute_units - amount) as u64
                } else {
                    0u64
                },
                ..*old(self)
            }),
    {
        if self.remaining_compute_units >= amount {
            self.remaining_compute_units = self.remaining_compute_units - amount;
        } else {
            self.remaining_compute_units = 0;
        }
    }

    /// Compute units still unspent.
    pub fn get_remaining(&self) -> (r: u64)
        ensures
            r == self.remaining_compute_units,
    {
        self.remaining_compute_units
    }
}

} // verus!
