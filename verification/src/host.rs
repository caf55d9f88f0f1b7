//! Interface to the execution environment of one transaction.
//!
//! The execution context, the key-value store with its nested transactions,
//! and the transaction dispatcher are external collaborators of the subcall
//! core: the core is specified against this interface and the runtime that
//! embeds it supplies the implementation.  The contracts on the methods
//! state exactly what the core assumes of a conforming host: forking a
//! child and dispatching inside the open nested store transaction leave the
//! parent-visible store unchanged, and rolling the transaction back
//! discards every write made within it.

use vstd::prelude::*;

use crate::subcall::{SubcallStack, Validator};
use crate::transaction::Transaction;

verus! {

/// Accumulated side effects of a child execution that the parent absorbs
/// when the child's nested store transaction commits.
#[derive(Debug)]
pub struct State {
    /// Emitted event tags, as key/value pairs.
    pub emitted_tags: Vec<(Vec<u8>, Vec<u8>)>,
    /// Emitted outbound consensus messages, as opaque bytes.
    pub emitted_messages: Vec<Vec<u8>>,
}

impl State {
    /// True when the state carries no effects at all.
    pub open spec fn is_empty(&self) -> bool {
        self.emitted_tags@.len() == 0 && self.emitted_messages@.len() == 0
    }
}

impl Default for State {
    /// The empty state: what a failed child contributes to its parent.
    fn default() -> (r: State)
        ensures
            r.is_empty(),
    {
        State { emitted_tags: Vec::new(), emitted_messages: Vec::new() }
    }
}

/// Result of one dispatched call: a success payload or a structured failure.
#[derive(Debug)]
pub enum CallResult {
    /// The call succeeded with the given opaque encoded payload.
    Success(oasis_cbor_value::Value),
    /// The call failed; its effects are to be rolled back.
    Failed { module: String, code: u32, message: String },
}

impl CallResult {
    /// Whether the result reports success.
    pub open spec fn spec_is_success(&self) -> bool {
        self matches CallResult::Success(_)
    }

    /// Whether the result reports success.
    #[verifier::when_used_as_spec(spec_is_success)]
    pub fn is_success(&self) -> (r: bool)
        ensures
            r == self.spec_is_success(),
    {
        matches!(self, CallResult::Success(_))
    }
}

/// The execution environment a subcall runs against.
///
/// One value stands for the current execution context.  `begin_child` forks
/// a child context with the same execution mode and opens a nested store
/// transaction on it; `dispatch` executes a synthesized transaction inside
/// that child, marked internal; `commit_child` persists the nested store
/// transaction and merges the child context into the parent;
/// `rollback_child` discards the nested store transaction's writes and then
/// merges the (now effect-free) child context into the parent.
///
/// A host's `dispatch` may itself issue nested subcalls through
/// [`crate::subcall::call`], which provably restores the given stack; the
/// contract records that obligation on every implementation.
pub trait SubcallHost<V: Validator>: Sized {
    /// The parent-visible committed key-value store.  An implementation
    /// that models its store overrides this; the default leaves it
    /// unspecified.
    open spec fn store_view(&self) -> Map<Seq<u8>, Seq<u8>> {
        arbitrary()
    }

    /// How many outbound consensus messages this context may still emit:
    /// the parent's remaining quota, from which a child's ceiling is
    /// carved out.
    fn remaining_messages(&self) -> (r: u32);

    /// Fork a child execution context (same mode, fresh nested state view)
    /// and open a nested store transaction on it.
    fn begin_child(&mut self)
        ensures
            final(self).store_view() == old(self).store_view(),
    ;

    /// Execute the synthesized transaction in the open child, bypassing
    /// signature authentication, and report the call result together with
    /// the compute budget remaining after execution.  All store writes land
    /// in the open nested store transaction.
    fn dispatch(&mut self, stack: &mut SubcallStack<V>, tx: Transaction) -> (r: (CallResult, u64))
        ensures
            final(self).store_view() == old(self).store_view(),
            final(stack)@ == old(stack)@,
    ;

    /// Persist the nested store transaction, then merge the child context
    /// into the parent, handing back the child's accumulated effects.
    fn commit_child(&mut self) -> (s: State);

    /// Discard every write of the nested store transaction, then merge the
    /// (effect-free) child context into the parent.
    fn rollback_child(&mut self)
        ensures
            final(self).store_view() == old(self).store_view(),
    ;
}

} // verus!
