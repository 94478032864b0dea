//! Client-side transaction engine for a distributed graph database.
//!
//! Transactions are modelled as typestates: a fresh transaction is specialised
//! into a read-only, best-effort or mutating one, and a mutating transaction is
//! consumed by `commit`, `discard` or a commit-now mutation. Each state builds the
//! requests that go over the wire and folds the server's replies back into the
//! transaction context; the transport that carries them lives outside this crate.
pub mod api;
pub mod client;
pub mod errors;
pub mod keys;
pub mod paging;
pub mod stub;
pub mod txn;

pub use crate::api::TxnContext;
pub use crate::errors::{ClientError, DgraphError};
