//! Nested-call execution core of a blockchain transaction runtime.
//!
//! One on-chain operation may synchronously invoke another operation (a
//! "subcall") as if it were a fresh transaction.  This crate implements the
//! call-depth tracker, the composable pre-call validation chain, the
//! resource allocation to children, and the commit/rollback reconciliation
//! between a child execution and its parent, together with the fixed-width
//! value types exchanged across the boundary and their CBOR byte encoding.

pub mod codec;
pub mod host;
pub mod subcall;
pub mod transaction;
pub mod types;
