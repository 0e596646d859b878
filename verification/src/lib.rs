//! A registry of task-completion claims.
//!
//! Anyone may register a claim that a task was completed; a designated
//! verifier (the owner, while none is configured) accepts it exactly once.
//! The history is append-only and can be read back in pages.
//!
//! Every function in this crate is verified. The contracts are stated over
//! the mathematical views of the types: [`contract::RegistryView`] for the
//! registry as a whole, [`access::ConfigView`] for who may do what,
//! [`record::TaskCompletionView`] for a single claim. What holds across
//! calls is proved in [`laws`].

pub mod access;
pub mod contract;
pub mod error;
pub mod laws;
pub mod query;
pub mod record;
pub mod store;

pub use crate::access::RegistryConfig;
pub use crate::contract::TaskCompletionContract;
pub use crate::error::RegistryError;
pub use crate::record::{TaskCompletion, TaskStatus};
pub use crate::store::RegistryStore;
