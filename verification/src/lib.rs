//! Host-side execution runtime for contract bytecode: checked guest-memory
//! translation, deterministic compute metering, and the syscall layer through
//! which contracts reach chain state, balances, storage and return data.
//!
//! The bytecode engine itself is an external collaborator: this crate holds
//! the pieces the engine depends on and the host implements around, with
//! machine-checked contracts on each.

pub mod context;
pub mod enum_types;
pub mod error;
pub mod invoke_context;
pub mod memory;
pub mod storage;
pub mod syscalls;
pub mod vm;

pub use error::TosVmError;
pub use memory::MemoryTranslationError;
pub use storage::{StorageProvider, AccountProvider, NoOpStorage, NoOpAccounts, InMemoryStorage, InMemoryAccounts, PortError};
pub use invoke_context::{InvokeContext, ContextError};
pub use context::TosContext;
pub use enum_types::{Enum, EnumType, EnumValueType, EnumVariant, IdentifierType};
