//! Syscall handlers: the fixed catalogue of host functions callable from
//! contract bytecode. Each handler validates, charges compute, translates
//! guest memory, delegates its effect and populates any output memory, in
//! that order; compute charged before a failing step is never refunded.

pub mod balance;
pub mod blockchain;
pub mod logging;
pub mod return_data;
pub mod storage;
