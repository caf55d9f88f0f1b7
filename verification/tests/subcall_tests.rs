use std::collections::HashMap;

use subcall::host::{CallResult, State, SubcallHost};
use subcall::subcall::{
    call, compute_gas_used, get_current_subcall_depth, synthesize_internal_transaction,
    AllowAllValidator, Error, MethodDenyValidator, SubcallInfo, SubcallStack, Validator,
};
use subcall::transaction::{AddressSpec, CallFormat, CallerAddress, Denomination};

fn info(method: &str, max_depth: u16, max_gas: u64) -> SubcallInfo {
    SubcallInfo {
        caller: CallerAddress::Address(vec![0x01, 0x02]),
        method: method.to_string(),
        body: oasis_cbor_value::Value::ByteString(vec![0xa0]),
        max_depth,
        max_gas,
    }
}

/// Host whose dispatch issues `depth_to_go` further nested subcalls, all
/// with the same declared limits, and records the first setup error seen.
struct NestingHost {
    depth_to_go: u16,
    max_depth: u16,
    last_err: Option<Error>,
    begins: u32,
}

impl NestingHost {
    fn new(depth_to_go: u16, max_depth: u16) -> Self {
        NestingHost { depth_to_go, max_depth, last_err: None, begins: 0 }
    }
}

impl SubcallHost<AllowAllValidator> for NestingHost {
    fn remaining_messages(&self) -> u32 {
        10
    }

    fn begin_child(&mut self) {
        self.begins += 1;
    }

    fn dispatch(
        &mut self,
        stack: &mut SubcallStack<AllowAllValidator>,
        _tx: subcall::transaction::Transaction,
    ) -> (CallResult, u64) {
        if self.depth_to_go > 0 {
            self.depth_to_go -= 1;
            let inner = info("inner.Method", self.max_depth, 100);
            match call(self, stack, inner, AllowAllValidator) {
                Ok(r) => (r.call_result, 50),
                Err(e) => {
                    self.last_err = Some(e);
                    (
                        CallResult::Failed {
                            module: "core".to_string(),
                            code: 1,
                            message: "subcall setup failed".to_string(),
                        },
                        50,
                    )
                }
            }
        } else {
            (CallResult::Success(oasis_cbor_value::Value::ByteString(vec![0xf6])), 50)
        }
    }

    fn commit_child(&mut self) -> State {
        State { emitted_tags: vec![(b"k".to_vec(), b"v".to_vec())], emitted_messages: vec![] }
    }

    fn rollback_child(&mut self) {}
}

/// Host with a real committed store: dispatch buffers one write, and the
/// scripted result decides whether it is committed or rolled back.
struct StoreHost {
    committed: HashMap<Vec<u8>, Vec<u8>>,
    pending: Vec<(Vec<u8>, Vec<u8>)>,
    fail: bool,
    remaining_gas: u64,
    seen_quota: Option<u32>,
}

impl StoreHost {
    fn new(fail: bool, remaining_gas: u64) -> Self {
        StoreHost {
            committed: HashMap::new(),
            pending: Vec::new(),
            fail,
            remaining_gas,
            seen_quota: None,
        }
    }
}

impl<V: Validator> SubcallHost<V> for StoreHost {
    fn remaining_messages(&self) -> u32 {
        7
    }

    fn begin_child(&mut self) {
        self.pending.clear();
    }

    fn dispatch(
        &mut self,
        _stack: &mut SubcallStack<V>,
        tx: subcall::transaction::Transaction,
    ) -> (CallResult, u64) {
        self.seen_quota = Some(tx.auth_info.fee.consensus_messages);
        self.pending.push((b"key1".to_vec(), b"val1".to_vec()));
        if self.fail {
            (
                CallResult::Failed {
                    module: "evm".to_string(),
                    code: 2,
                    message: "reverted".to_string(),
                },
                self.remaining_gas,
            )
        } else {
            (CallResult::Success(oasis_cbor_value::Value::ByteString(vec![0x01])), self.remaining_gas)
        }
    }

    fn commit_child(&mut self) -> State {
        let writes: Vec<(Vec<u8>, Vec<u8>)> = self.pending.drain(..).collect();
        for (k, v) in writes {
            self.committed.insert(k, v);
        }
        State {
            emitted_tags: vec![(b"tag".to_vec(), b"yes".to_vec())],
            emitted_messages: vec![b"msg".to_vec()],
        }
    }

    fn rollback_child(&mut self) {
        self.pending.clear();
    }
}

/// Depth is back at its pre-call value after the outermost call returns,
/// with and without inner failures.
#[test]
fn depth_restored_after_calls() {
    let mut stack: SubcallStack<AllowAllValidator> = SubcallStack::new();
    assert_eq!(get_current_subcall_depth(&stack), 0);

    let mut host = NestingHost::new(2, 5);
    let r = call(&mut host, &mut stack, info("outer.Method", 5, 100), AllowAllValidator);
    assert!(r.is_ok());
    assert_eq!(get_current_subcall_depth(&stack), 0);

    // A run whose innermost call fails on depth still restores the stack.
    let mut host = NestingHost::new(5, 2);
    let r = call(&mut host, &mut stack, info("outer.Method", 2, 100), AllowAllValidator);
    assert!(r.is_ok());
    assert_eq!(get_current_subcall_depth(&stack), 0);
}

/// A chain of exactly `d` nested successful calls succeeds, and the
/// `(d+1)`-th fails with CallDepthExceeded(d + 1, d).
#[test]
fn depth_limit_chain() {
    let d: u16 = 3;

    // d calls in total: the outer one plus d - 1 nested ones.
    let mut stack: SubcallStack<AllowAllValidator> = SubcallStack::new();
    let mut host = NestingHost::new(d - 1, d);
    let r = call(&mut host, &mut stack, info("outer.Method", d, 100), AllowAllValidator);
    match r {
        Ok(res) => assert!(res.call_result.is_success()),
        Err(_) => panic!("chain of d nested calls must succeed"),
    }
    assert!(host.last_err.is_none());

    // One more nested call: the innermost attempt is refused.
    let mut host = NestingHost::new(d, d);
    let r = call(&mut host, &mut stack, info("outer.Method", d, 100), AllowAllValidator);
    assert!(r.is_ok());
    assert!(matches!(host.last_err, Some(Error::CallDepthExceeded(4, 3))));
}

/// With max_depth = 1 an outer call with no inner subcall succeeds; one
/// that nests a second concurrent level fails, while a second sibling
/// issued after the first completed is allowed again.
#[test]
fn depth_one_examples() {
    let mut stack: SubcallStack<AllowAllValidator> = SubcallStack::new();

    let mut host = NestingHost::new(0, 1);
    let r = call(&mut host, &mut stack, info("outer.Method", 1, 100), AllowAllValidator);
    assert!(r.is_ok());

    // Sibling after the first completed: depth is back at 0, so allowed.
    let r = call(&mut host, &mut stack, info("outer.Method", 1, 100), AllowAllValidator);
    assert!(r.is_ok());

    // Concurrently nested second level: refused.
    let mut host = NestingHost::new(1, 1);
    let r = call(&mut host, &mut stack, info("outer.Method", 1, 100), AllowAllValidator);
    assert!(r.is_ok());
    assert!(matches!(host.last_err, Some(Error::CallDepthExceeded(2, 1))));
}

/// Depth-exceeded at the very first call when the stack is already deep
/// enough relative to the declared ceiling.
#[test]
fn depth_exceeded_at_zero_limit() {
    let mut stack: SubcallStack<AllowAllValidator> = SubcallStack::new();
    let mut host = NestingHost::new(0, 0);
    let r = call(&mut host, &mut stack, info("outer.Method", 0, 100), AllowAllValidator);
    assert!(matches!(r, Err(Error::CallDepthExceeded(1, 0))));
    // Setup failed before any child was created.
    assert_eq!(host.begins, 0);
    assert_eq!(get_current_subcall_depth(&stack), 0);
}

/// Host used for validator-chain tests; dispatch issues one nested call to
/// "forbidden.Method" when asked to.
struct DenyNestingHost {
    nest: bool,
    last_err: Option<Error>,
    begins: u32,
}

impl SubcallHost<MethodDenyValidator> for DenyNestingHost {
    fn remaining_messages(&self) -> u32 {
        3
    }

    fn begin_child(&mut self) {
        self.begins += 1;
    }

    fn dispatch(
        &mut self,
        stack: &mut SubcallStack<MethodDenyValidator>,
        _tx: subcall::transaction::Transaction,
    ) -> (CallResult, u64) {
        if self.nest {
            self.nest = false;
            let inner = info("forbidden.Method", 10, 100);
            let inner_validator = MethodDenyValidator { method: "unused.Method".to_string() };
            match call(self, stack, inner, inner_validator) {
                Ok(r) => (r.call_result, 80),
                Err(e) => {
                    self.last_err = Some(e);
                    (
                        CallResult::Failed {
                            module: "core".to_string(),
                            code: 1,
                            message: "rejected".to_string(),
                        },
                        80,
                    )
                }
            }
        } else {
            (CallResult::Success(oasis_cbor_value::Value::ByteString(vec![])), 80)
        }
    }

    fn commit_child(&mut self) -> State {
        State::default()
    }

    fn rollback_child(&mut self) {}
}

/// A validator registered by an outer call rejects a deeper call to the
/// method it refuses, before any child context is created for it.
#[test]
fn ancestor_validator_rejects_deeper_call() {
    let mut stack: SubcallStack<MethodDenyValidator> = SubcallStack::new();
    let mut host = DenyNestingHost { nest: true, last_err: None, begins: 0 };
    let outer_validator = MethodDenyValidator { method: "forbidden.Method".to_string() };
    let r = call(&mut host, &mut stack, info("ok.Method", 10, 100), outer_validator);
    assert!(r.is_ok());
    match &host.last_err {
        Some(Error::ValidationRejected(reason)) => assert_eq!(reason, "forbidden.Method"),
        _ => panic!("the ancestor's validator must reject the deeper call"),
    }
    // Only the outer call forked a child; the rejected inner call did not.
    assert_eq!(host.begins, 1);
    assert_eq!(get_current_subcall_depth(&stack), 0);
}

/// The newly supplied validator is consulted against the call itself,
/// before any stack or host activity.
#[test]
fn own_validator_rejects_call() {
    let mut stack: SubcallStack<MethodDenyValidator> = SubcallStack::new();
    let mut host = DenyNestingHost { nest: false, last_err: None, begins: 0 };
    let validator = MethodDenyValidator { method: "forbidden.Method".to_string() };
    let r = call(&mut host, &mut stack, info("forbidden.Method", 10, 100), validator);
    assert!(matches!(r, Err(Error::ValidationRejected(_))));
    assert_eq!(host.begins, 0);
    assert_eq!(get_current_subcall_depth(&stack), 0);
}

/// A sibling call issued after a validator-carrying sibling completed does
/// not see that validator any more.
#[test]
fn no_stale_sibling_validator() {
    let mut stack: SubcallStack<MethodDenyValidator> = SubcallStack::new();
    let mut host = DenyNestingHost { nest: false, last_err: None, begins: 0 };

    // First sibling registers the denying validator and completes.
    let denying = MethodDenyValidator { method: "forbidden.Method".to_string() };
    let r = call(&mut host, &mut stack, info("ok.Method", 10, 100), denying);
    assert!(r.is_ok());

    // Second sibling may now call the method the first one would have
    // denied for its own subtree.
    let permissive = MethodDenyValidator { method: "unused.Method".to_string() };
    let r = call(&mut host, &mut stack, info("forbidden.Method", 10, 100), permissive);
    assert!(r.is_ok());
}

/// Gas used is max_gas - remaining_gas, saturating at zero, and within
/// bounds.
#[test]
fn gas_accounting() {
    let mut stack: SubcallStack<AllowAllValidator> = SubcallStack::new();
    let mut host = StoreHost::new(false, 30);
    let r = call(&mut host, &mut stack, info("m.A", 1, 100), AllowAllValidator);
    match r {
        Ok(res) => {
            assert!(res.call_result.is_success());
            assert_eq!(res.gas_used, 70);
        }
        Err(_) => panic!("call must succeed"),
    }

    // The callee reports more remaining than it was given: charge nothing.
    let mut host = StoreHost::new(false, 1000);
    let r = call(&mut host, &mut stack, info("m.A", 1, 100), AllowAllValidator);
    match r {
        Ok(res) => assert_eq!(res.gas_used, 0),
        Err(_) => panic!("call must succeed"),
    }

    assert_eq!(compute_gas_used(100, 30), 70);
    assert_eq!(compute_gas_used(100, 100), 0);
    assert_eq!(compute_gas_used(100, 101), 0);
    assert_eq!(compute_gas_used(0, 0), 0);
}

/// Gas is still charged when the dispatched call fails.
#[test]
fn gas_charged_on_failure() {
    let mut stack: SubcallStack<AllowAllValidator> = SubcallStack::new();
    let mut host = StoreHost::new(true, 40);
    let r = call(&mut host, &mut stack, info("m.A", 1, 100), AllowAllValidator);
    match r {
        Ok(res) => {
            assert!(!res.call_result.is_success());
            assert_eq!(res.gas_used, 60);
        }
        Err(_) => panic!("call must succeed"),
    }
}

/// A failed dispatched call leaves no store write behind and yields the
/// empty state; a successful one commits its write.
#[test]
fn rollback_on_failure_commit_on_success() {
    let mut stack: SubcallStack<AllowAllValidator> = SubcallStack::new();

    let mut host = StoreHost::new(true, 50);
    let r = call(&mut host, &mut stack, info("m.A", 1, 100), AllowAllValidator);
    match r {
        Ok(res) => {
            assert!(!res.call_result.is_success());
            assert_eq!(res.state.emitted_tags.len(), 0);
            assert_eq!(res.state.emitted_messages.len(), 0);
        }
        Err(_) => panic!("call must succeed"),
    }
    assert!(host.committed.is_empty());

    let mut host = StoreHost::new(false, 50);
    let r = call(&mut host, &mut stack, info("m.A", 1, 100), AllowAllValidator);
    match r {
        Ok(res) => {
            assert!(res.call_result.is_success());
            assert_eq!(res.state.emitted_tags.len(), 1);
        }
        Err(_) => panic!("call must succeed"),
    }
    assert_eq!(host.committed.get(&b"key1".to_vec()), Some(&b"val1".to_vec()));
}

/// The child's outbound-message ceiling equals the parent's remaining
/// quota at the moment of the call.
#[test]
fn child_quota_from_parent() {
    let mut stack: SubcallStack<AllowAllValidator> = SubcallStack::new();
    let mut host = StoreHost::new(false, 50);
    let r = call(&mut host, &mut stack, info("m.A", 1, 100), AllowAllValidator);
    assert!(r.is_ok());
    // StoreHost reports a remaining quota of 7.
    assert_eq!(host.seen_quota, Some(7));
}

/// The synthesized internal transaction carries exactly the declared
/// fields: plain format, internal signer with nonce 0, zero fee, the
/// call's gas ceiling and the given message quota.
#[test]
fn synthesized_transaction_fields() {
    let tx = synthesize_internal_transaction(info("some.Method", 4, 123), 9);
    assert_eq!(tx.version, 1);
    assert!(matches!(tx.call.format, CallFormat::Plain));
    assert_eq!(tx.call.method, "some.Method");
    assert_eq!(tx.call.body, oasis_cbor_value::Value::ByteString(vec![0xa0]));
    assert_eq!(tx.auth_info.signer_info.len(), 1);
    match &tx.auth_info.signer_info[0].address_spec {
        AddressSpec::Internal(CallerAddress::Address(bytes)) => {
            assert_eq!(bytes, &vec![0x01, 0x02]);
        }
        _ => panic!("signer must be the internally-authorized caller"),
    }
    assert_eq!(tx.auth_info.signer_info[0].nonce, 0);
    assert_eq!(tx.auth_info.fee.amount.amount, 0);
    assert!(matches!(tx.auth_info.fee.amount.denomination, Denomination::Native));
    assert_eq!(tx.auth_info.fee.gas, 123);
    assert_eq!(tx.auth_info.fee.consensus_messages, 9);
}

/// The validators themselves.
#[test]
fn validator_behaviour() {
    let i = info("forbidden.Method", 1, 1);
    assert!(AllowAllValidator.validate(&i).is_ok());
    let deny = MethodDenyValidator { method: "forbidden.Method".to_string() };
    match deny.validate(&i) {
        Err(Error::ValidationRejected(reason)) => assert_eq!(reason, "forbidden.Method"),
        _ => panic!("the denied method must be rejected, naming the method"),
    }
    let other = info("fine.Method", 1, 1);
    assert!(deny.validate(&other).is_ok());
}

/// The stack operations themselves: push, pop, depth, run_validators.
#[test]
fn stack_operations() {
    let mut stack: SubcallStack<MethodDenyValidator> = SubcallStack::new();
    assert_eq!(stack.depth(), 0);
    stack.pop();
    assert_eq!(stack.depth(), 0);

    stack.push(MethodDenyValidator { method: "a.B".to_string() });
    stack.push(MethodDenyValidator { method: "c.D".to_string() });
    assert_eq!(stack.depth(), 2);

    assert!(stack.run_validators(&info("e.F", 1, 1)).is_ok());
    assert!(matches!(
        stack.run_validators(&info("c.D", 1, 1)),
        Err(Error::ValidationRejected(_))
    ));

    stack.pop();
    assert_eq!(stack.depth(), 1);
    // The remaining validator is the outermost one.
    assert!(stack.run_validators(&info("c.D", 1, 1)).is_ok());
    assert!(matches!(
        stack.run_validators(&info("a.B", 1, 1)),
        Err(Error::ValidationRejected(_))
    ));
    stack.pop();
    assert_eq!(stack.depth(), 0);
}

/// The empty state really is empty.
#[test]
fn default_state_is_empty() {
    let s = State::default();
    assert_eq!(s.emitted_tags.len(), 0);
    assert_eq!(s.emitted_messages.len(), 0);
}
