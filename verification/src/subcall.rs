//! Subcall dispatch.
//!
//! A subcall is a synchronous nested transaction-like invocation issued
//! from within an already-executing transaction.  [`call`] validates the
//! request, accounts for recursion depth and resources, executes the
//! nested transaction through the host, and reconciles commit/rollback so
//! that a failed child leaves no observable effect on the parent.

use vstd::prelude::*;

use crate::host::{CallResult, State, SubcallHost};
use crate::transaction::{
    AddressSpec, AuthInfo, BaseUnits, Call, CallFormat, CallerAddress, Denomination, Fee,
    SignerInfo, Transaction, LATEST_TRANSACTION_VERSION,
};

verus! {

/// Setup-time failure of a subcall.  Failures of the dispatched call itself
/// are not errors of [`call`]: they come back as a non-success
/// [`CallResult`] inside a [`SubcallResult`].
#[derive(Clone, Debug)]
pub enum Error {
    /// The subtree's own declared recursion ceiling was reached; carries the
    /// attempted depth and the caller-declared limit.
    CallDepthExceeded(u16, u16),
    /// An active validator refused the call; carries the reason.
    ValidationRejected(String),
}

/// Information about a subcall to be dispatched.
#[derive(Clone, Debug)]
pub struct SubcallInfo {
    /// Address of the caller.
    pub caller: CallerAddress,
    /// Method to call.
    pub method: String,
    /// Subcall body: an opaque encoded value, carried through unchanged.
    pub body: oasis_cbor_value::Value,
    /// Maximum subcall depth.
    pub max_depth: u16,
    /// Maximum gas amount that can be consumed.
    pub max_gas: u64,
}

/// Result of dispatching a subcall.
#[derive(Debug)]
pub struct SubcallResult {
    /// State after applying the subcall context.
    pub state: State,
    /// Result of the subcall.
    pub call_result: CallResult,
    /// Gas used by the subcall.
    pub gas_used: u64,
}

/// Subcall validator: a predicate over a prospective subcall's metadata.
///
/// A validator supplied at one call level is retained on the stack for the
/// full lifetime of that call and consulted against every deeper subcall
/// attempted while it is active.
pub trait Validator: Sized {
    /// The predicate the validator decides.
    spec fn accepts(&self, info: &SubcallInfo) -> bool;

    /// The error the validator returns for a call it refuses.
    spec fn rejection(&self, info: &SubcallInfo) -> Error;

    /// Validate a subcall before it is performed.
    fn validate(&self, info: &SubcallInfo) -> (r: Result<(), Error>)
        ensures
            (r is Ok) <==> self.accepts(info),
            r matches Err(e) ==> e == self.rejection(info),
    ;
}

/// A validator which allows everything.
pub struct AllowAllValidator;

impl Validator for AllowAllValidator {
    open spec fn accepts(&self, info: &SubcallInfo) -> bool {
        true
    }

    /// Unspecified: this validator never rejects.
    open spec fn rejection(&self, info: &SubcallInfo) -> Error {
        arbitrary()
    }

    fn validate(&self, info: &SubcallInfo) -> (r: Result<(), Error>) {
        Ok(())
    }
}

/// A validator which rejects exactly the calls to one method.
pub struct MethodDenyValidator {
    /// The method name that is refused.
    pub method: String,
}

impl Validator for MethodDenyValidator {
    open spec fn accepts(&self, info: &SubcallInfo) -> bool {
        info.method@ != self.method@
    }

    /// The rejection names the refused method.
    open spec fn rejection(&self, info: &SubcallInfo) -> Error {
        Error::ValidationRejected(self.method)
    }

    fn validate(&self, info: &SubcallInfo) -> (r: Result<(), Error>) {
        if info.method == self.method {
            Err(Error::ValidationRejected(self.method.clone()))
        } else {
            Ok(())
        }
    }
}

/// Every validator in `s` accepts `info`.
pub open spec fn all_accept<V: Validator>(s: Seq<V>, info: &SubcallInfo) -> bool {
    forall|i: int| 0 <= i < s.len() ==> #[trigger] s[i].accepts(info)
}

/// The smallest index at or after `i` of a validator in `s` that rejects
/// `info`, or `s.len()` when every one from `i` on accepts.
pub open spec fn first_rejector_from<V: Validator>(s: Seq<V>, info: &SubcallInfo, i: int) -> int
    decreases s.len() - i,
{
    if i < 0 || i >= s.len() {
        i
    } else if !s[i].accepts(info) {
        i
    } else {
        first_rejector_from(s, info, i + 1)
    }
}

/// The index of the outermost validator in `s` that rejects `info`.
pub open spec fn first_rejector<V: Validator>(s: Seq<V>, info: &SubcallInfo) -> int {
    first_rejector_from(s, info, 0)
}

/// When every validator before `i` accepts, the outermost rejector is not
/// before `i`.
proof fn lemma_first_rejector_skip<V: Validator>(s: Seq<V>, info: &SubcallInfo, i: int)
    requires
        0 <= i <= s.len(),
        forall|j: int| 0 <= j < i ==> #[trigger] s[j].accepts(info),
    ensures
        first_rejector(s, info) == first_rejector_from(s, info, i),
    decreases i,
{
    if i > 0 {
        lemma_first_rejector_skip(s, info, i - 1);
    }
}

/// Per-execution-thread state recording the current recursion depth and the
/// ordered chain of active validators, outermost first.
///
/// Its length at any instant equals the number of subcalls currently on the
/// live call chain.  It is created empty at the start of a transaction's
/// execution thread, and [`call`] returns it to its prior state on every
/// exit path, so it is empty again when the thread finishes.
pub struct SubcallStack<V: Validator> {
    validators: Vec<V>,
}

impl<Val: Validator> View for SubcallStack<Val> {
    type V = Seq<Val>;

    closed spec fn view(&self) -> Seq<Val> {
        self.validators@
    }
}

impl<V: Validator> SubcallStack<V> {
    /// The recursion depth is bounded so that it can be reported as a
    /// 16-bit count.
    pub open spec fn wf(&self) -> bool {
        self@.len() <= u16::MAX as nat
    }

    /// An empty stack: no subcall is active.
    pub fn new() -> (r: Self)
        ensures
            r@ == Seq::<V>::empty(),
    {
        SubcallStack { validators: Vec::new() }
    }

    /// Current count of active entries; read without mutation.
    pub fn depth(&self) -> (r: u16)
        requires
            self.wf(),
        ensures
            r as nat == self@.len(),
    {
        self.validators.len() as u16
    }

    /// Append an entry for a call whose own checks have all passed.
    pub fn push(&mut self, validator: V)
        requires
            old(self)@.len() < u16::MAX as nat,
        ensures
            final(self)@ == old(self)@.push(validator),
    {
        self.validators.push(validator);
    }

    /// Remove the most-recently-pushed entry; safe to call on an empty
    /// stack, where it is a no-op.
    pub fn pop(&mut self)
        ensures
            old(self)@.len() == 0 ==> final(self)@ == old(self)@,
            old(self)@.len() > 0 ==> final(self)@ == old(self)@.drop_last(),
    {
        let _ = self.validators.pop();
    }

    /// Invoke every currently active validator against `info`, outermost
    /// first, short-circuiting on the first failure, whose rejection is
    /// returned.
    pub fn run_validators(&self, info: &SubcallInfo) -> (r: Result<(), Error>)
        ensures
            (r is Ok) <==> all_accept(self@, info),
            r matches Err(e) ==> e == self@[first_rejector(self@, info)].rejection(info),
    {
        let n = self.validators.len();
        let mut i: usize = 0;
        while i < n
            invariant
                n == self.validators.len(),
                i <= n,
                forall|j: int| 0 <= j < i ==> #[trigger] self@[j].accepts(info),
            decreases n - i,
        {
            match self.validators[i].validate(info) {
                Ok(()) => {}
                Err(e) => {
                    proof {
                        lemma_first_rejector_skip(self@, info, i as int);
                        assert(first_rejector(self@, info) == i);
                        assert(!all_accept(self@, info));
                    }
                    return Err(e);
                }
            }
            i += 1;
        }
        Ok(())
    }
}

/// The current subcall depth.
pub fn get_current_subcall_depth<V: Validator>(stack: &SubcallStack<V>) -> (r: u16)
    requires
        stack.wf(),
    ensures
        r as nat == stack@.len(),
{
    stack.depth()
}

/// The compute actually consumed by a call that was given `max_gas` and
/// reports `remaining_gas` left: `max_gas - remaining_gas`, saturating at
/// zero if the callee somehow reports more remaining than it was given.
pub fn compute_gas_used(max_gas: u64, remaining_gas: u64) -> (r: u64)
    ensures
        remaining_gas <= max_gas ==> r == max_gas - remaining_gas,
        remaining_gas > max_gas ==> r == 0,
        r <= max_gas,
{
    max_gas.saturating_sub(remaining_gas)
}

/// Synthesize the internal transaction that executes a subcall: a plain
/// call to `info.method` with `info.body`, signed by the subcall's declared
/// caller as an internally-authorized address with nonce 0, carrying zero
/// token cost, a compute ceiling of `info.max_gas`, and an outbound-message
/// ceiling of `remaining_messages` (the parent's remaining quota, so a
/// child may never exceed what the parent itself has left).
pub fn synthesize_internal_transaction(info: SubcallInfo, remaining_messages: u32) -> (tx:
    Transaction)
    ensures
        tx.version == LATEST_TRANSACTION_VERSION,
        tx.call.format == CallFormat::Plain,
        tx.call.method == info.method,
        tx.call.body == info.body,
        tx.auth_info.signer_info@.len() == 1,
        tx.auth_info.signer_info@[0].address_spec == AddressSpec::Internal(info.caller),
        tx.auth_info.signer_info@[0].nonce == 0,
        tx.auth_info.fee.amount.amount == 0,
        tx.auth_info.fee.amount.denomination == Denomination::Native,
        tx.auth_info.fee.gas == info.max_gas,
        tx.auth_info.fee.consensus_messages == remaining_messages,
{
    let mut signer_info: Vec<SignerInfo> = Vec::new();
    signer_info.push(SignerInfo { address_spec: AddressSpec::Internal(info.caller), nonce: 0 });
    Transaction {
        version: LATEST_TRANSACTION_VERSION,
        call: Call { format: CallFormat::Plain, method: info.method, body: info.body },
        auth_info: AuthInfo {
            signer_info,
            fee: Fee {
                amount: BaseUnits { amount: 0, denomination: Denomination::Native },
                gas: info.max_gas,
                consensus_messages: remaining_messages,
            },
        },
    }
}

/// Perform a subcall.
///
/// The newly supplied validator is run first; then, against the stack, the
/// depth ceiling is checked, every active validator is consulted, and an
/// entry for this call is pushed.  A setup-time failure aborts before any
/// child context or store transaction exists, with the host untouched.
/// Otherwise the host forks a child, the synthesized internal transaction
/// is dispatched in it, and the nested store transaction is committed when
/// the dispatched call succeeds and rolled back when it fails, so a failed
/// child contributes the empty state and no store write.  Exactly one pop
/// fires before `call` returns, on every exit path, so the stack is
/// restored to its prior state whatever happens.
pub fn call<V: Validator, H: SubcallHost<V>>(
    host: &mut H,
    stack: &mut SubcallStack<V>,
    info: SubcallInfo,
    validator: V,
) -> (r: Result<SubcallResult, Error>)
    requires
        old(stack)@.len() < u16::MAX as nat,
    ensures
        final(stack)@ == old(stack)@,
        (r is Ok) <==> (validator.accepts(&info) && old(stack)@.len() < info.max_depth as nat
            && all_accept(old(stack)@, &info)),
        !validator.accepts(&info) ==> (r matches Err(e) && e == validator.rejection(&info)
            && *final(host) == *old(host)),
        validator.accepts(&info) && old(stack)@.len() >= info.max_depth as nat ==> (r matches Err(e)
            && e == Error::CallDepthExceeded((old(stack)@.len() + 1) as u16, info.max_depth)
            && *final(host) == *old(host)),
        validator.accepts(&info) && old(stack)@.len() < info.max_depth as nat && !all_accept(
            old(stack)@,
            &info,
        ) ==> (r matches Err(e) && e == old(stack)@[first_rejector(old(stack)@, &info)].rejection(
            &info,
        ) && *final(host) == *old(host)),
        r matches Ok(res) ==> (res.gas_used <= info.max_gas && (!res.call_result.spec_is_success()
            ==> res.state.is_empty() && final(host).store_view() == old(host).store_view())),
{
    // Run the newly supplied validator first, before any stack mutation.
    match validator.validate(&info) {
        Ok(()) => {}
        Err(e) => {
            return Err(e);
        }
    }

    // Ensure the call depth is not too large: the current depth is held
    // against the new call's own declared ceiling.
    let depth = stack.depth();
    if depth >= info.max_depth {
        return Err(Error::CallDepthExceeded(depth + 1, info.max_depth));
    }

    // Run the already active validators, outermost first.
    match stack.run_validators(&info) {
        Ok(()) => {}
        Err(e) => {
            return Err(e);
        }
    }

    // Push this call's entry.  From here to the pop below there is no other
    // exit path, so the entry is removed exactly once however the dispatch
    // turns out.
    stack.push(validator);

    // Calculate how many consensus messages the child call can emit, then
    // execute the synthesized transaction in a child context.
    let max_gas = info.max_gas;
    let remaining_messages = host.remaining_messages();
    let tx = synthesize_internal_transaction(info, remaining_messages);
    host.begin_child();
    let (call_result, remaining_gas) = host.dispatch(stack, tx);

    // Commit the store transaction on successful dispatch, otherwise revert
    // it and substitute the empty state; either way the child context is
    // merged into the parent.
    let state: State = if call_result.is_success() {
        host.commit_child()
    } else {
        host.rollback_child();
        State::default()
    };

    // Release this call's stack entry.
    stack.pop();
    assert(stack@ =~= old(stack)@);

    let gas_used = compute_gas_used(max_gas, remaining_gas);
    Ok(SubcallResult { state, call_result, gas_used })
}

} // verus!
