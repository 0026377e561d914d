//! Owning handles to nodes of the foreign value graph.
//!
//! A node lives in a foreign, reference-counted heap and is named here by its
//! address. Each `Value` owns exactly one unit of its node's count. The
//! operations on a handle do not touch the foreign heap themselves: each one
//! returns the reference-count call it owes, which the caller makes.
use vstd::prelude::*;

verus! {

/// A reference-count call on the node at the given address.
#[derive(PartialEq, Eq, Structural, Debug, Clone, Copy)]
pub enum RefCall {
    /// Add one unit to the node's count.
    Incref(usize),
    /// Remove one unit from the node's count; the node may be freed.
    Decref(usize),
}

/// What the foreign layer reported of a reference-count call.
#[derive(PartialEq, Eq, Structural, Debug, Clone, Copy)]
pub enum CallStatus {
    /// The call succeeded.
    Succeeded,
    /// The call reported a failure.
    Failed,
}

/// How one call changes the count of the node at `node`.
pub open spec fn call_delta(c: RefCall, node: usize) -> int {
    match c {
        RefCall::Incref(n) => if n == node { 1 } else { 0 },
        RefCall::Decref(n) => if n == node { -1 } else { 0 },
    }
}

/// How a sequence of calls changes the count of the node at `node`.
pub open spec fn net_delta(calls: Seq<RefCall>, node: usize) -> int
    decreases calls.len(),
{
    if calls.len() == 0 {
        0
    } else {
        net_delta(calls.drop_last(), node) + call_delta(calls.last(), node)
    }
}

/// `n` copies of the call `c`.
pub open spec fn repeat_call(c: RefCall, n: nat) -> Seq<RefCall> {
    Seq::new(n, |_i: int| c)
}

/// The count change of two call sequences made one after the other is the sum of theirs.
pub proof fn lemma_net_delta_append(a: Seq<RefCall>, b: Seq<RefCall>, node: usize)
    ensures
        net_delta(a + b, node) == net_delta(a, node) + net_delta(b, node),
    decreases b.len(),
{
    if b.len() > 0 {
        lemma_net_delta_append(a, b.drop_last(), node);
        assert((a + b).drop_last() =~= a + b.drop_last());
    }
}

/// The count change of `n` copies of one call is `n` times its own.
pub proof fn lemma_net_delta_repeat(c: RefCall, n: nat, node: usize)
    ensures
        net_delta(repeat_call(c, n), node) == n * call_delta(c, node),
    decreases n,
{
    if n > 0 {
        lemma_net_delta_repeat(c, (n - 1) as nat, node);
        assert(repeat_call(c, n).drop_last() =~= repeat_call(c, (n - 1) as nat));
        assert(n * call_delta(c, node) == (n - 1) * call_delta(c, node) + call_delta(c, node))
            by (nonlinear_arith);
    }
}

/// Borrowing a node, cloning the handle `n` times and releasing all `n + 1`
/// handles makes as many increments as decrements on the node: its count
/// ends where it began.
pub proof fn lemma_clones_balance(node: usize, n: nat)
    ensures
        net_delta(
            seq![RefCall::Incref(node)] + repeat_call(RefCall::Incref(node), n) + repeat_call(
                RefCall::Decref(node),
                n + 1,
            ),
            node,
        ) == 0,
{
    let borrow = seq![RefCall::Incref(node)];
    let clones = repeat_call(RefCall::Incref(node), n);
    let releases = repeat_call(RefCall::Decref(node), n + 1);
    lemma_net_delta_append(borrow + clones, releases, node);
    lemma_net_delta_append(borrow, clones, node);
    lemma_net_delta_repeat(RefCall::Incref(node), n, node);
    lemma_net_delta_repeat(RefCall::Decref(node), n + 1, node);
    assert(borrow.drop_last() =~= Seq::<RefCall>::empty());
    assert(borrow.last() == RefCall::Incref(node));
    assert(net_delta(borrow.drop_last(), node) == 0);
    assert(net_delta(borrow, node) == 1);
}

/// A clone outlives the handle it was made from: after the clone's increment
/// and the original's decrement the node's count is what it was while the
/// original alone held its unit, so it is still at least one.
pub proof fn lemma_clone_survives_release(node: usize, count: int)
    requires
        count >= 1,
    ensures
        count + net_delta(seq![RefCall::Incref(node), RefCall::Decref(node)], node) == count,
{
    let calls = seq![RefCall::Incref(node), RefCall::Decref(node)];
    assert(calls.drop_last() =~= seq![RefCall::Incref(node)]);
    assert(calls.drop_last().drop_last() =~= Seq::<RefCall>::empty());
    assert(net_delta(calls.drop_last().drop_last(), node) == 0);
    assert(net_delta(calls.drop_last(), node) == 1);
}

/// One step in the life of the handles to a node.
#[derive(PartialEq, Eq, Structural, Debug, Clone, Copy)]
pub enum HandleEvent {
    /// A handle is made by `Value::new`, over a unit its caller already added.
    Adopt,
    /// A handle is made by `Value::new_borrowed`.
    Borrow,
    /// A handle is cloned, with a successful increment.
    Clone,
    /// A handle is released.
    Release,
}

/// The calls an event owes the node at `node`, as the operations on `Value` return them.
pub open spec fn event_calls(e: HandleEvent, node: usize) -> Seq<RefCall> {
    match e {
        HandleEvent::Adopt => Seq::empty(),
        HandleEvent::Borrow => seq![RefCall::Incref(node)],
        HandleEvent::Clone => seq![RefCall::Incref(node)],
        HandleEvent::Release => seq![RefCall::Decref(node)],
    }
}

/// The calls a history of events owes the node at `node`, in order.
pub open spec fn history_calls(events: Seq<HandleEvent>, node: usize) -> Seq<RefCall>
    decreases events.len(),
{
    if events.len() == 0 {
        Seq::empty()
    } else {
        history_calls(events.drop_last(), node) + event_calls(events.last(), node)
    }
}

/// The number of adoptions in a history.
pub open spec fn adoptions(events: Seq<HandleEvent>) -> int
    decreases events.len(),
{
    if events.len() == 0 {
        0
    } else {
        adoptions(events.drop_last()) + if events.last() == HandleEvent::Adopt { 1int } else { 0 }
    }
}

/// The number of handles made in a history, less those released.
pub open spec fn live_handles(events: Seq<HandleEvent>) -> int
    decreases events.len(),
{
    if events.len() == 0 {
        0
    } else {
        live_handles(events.drop_last()) + if events.last() == HandleEvent::Release {
            -1int
        } else {
            1
        }
    }
}

/// Each handle owns exactly one unit of its node's count: over any history,
/// the units added by the handles' own calls, together with those handed
/// over to adopting handles, are as many as the handles still alive. So
/// while one handle is alive, the count is at least one.
pub proof fn lemma_handles_own_units(events: Seq<HandleEvent>, node: usize)
    ensures
        net_delta(history_calls(events, node), node) + adoptions(events) == live_handles(events),
    decreases events.len(),
{
    if events.len() > 0 {
        let prefix = events.drop_last();
        let e = events.last();
        lemma_handles_own_units(prefix, node);
        lemma_net_delta_append(history_calls(prefix, node), event_calls(e, node), node);
        let calls = event_calls(e, node);
        if calls.len() == 1 {
            assert(calls.drop_last() =~= Seq::<RefCall>::empty());
            assert(net_delta(calls.drop_last(), node) == 0);
        }
    }
}

/// An owning handle to one node of the foreign value graph.
///
/// Several handles may name the same node. The node's evaluation state lives
/// in the foreign heap, not in the handle, so forcing it through one handle is
/// seen through all of them.
pub struct Value {
    inner: usize,
}

impl Value {
    /// A handle never names the null address.
    #[verifier::type_invariant]
    spec fn non_null(self) -> bool {
        self.inner != 0
    }
}

impl View for Value {
    type V = usize;

    /// The address of the node this handle owns a unit of.
    closed spec fn view(&self) -> usize {
        self.inner
    }
}

impl Value {
    /// Take over a unit of the count of the node at `inner`, which the caller
    /// has already added on this handle's behalf. No call is owed: the handle
    /// adds nothing to the count, and releases its unit when it is released.
    pub fn new(inner: usize) -> (v: Value)
        requires
            inner != 0,
        ensures
            v@ == inner,
    {
        Value { inner }
    }

    /// Make a handle to the node at `inner`, whose count is positive but none
    /// of whose units is handed over. The handle owes exactly one increment,
    /// returned beside it, which is the unit it owns.
    pub fn new_borrowed(inner: usize) -> (r: (Value, RefCall))
        requires
            inner != 0,
        ensures
            r.0@ == inner,
            r.1 == RefCall::Incref(inner),
    {
        let v = Value::new(inner);
        (v, RefCall::Incref(inner))
    }

    /// The address of the node; it is never null.
    pub fn address(&self) -> (r: usize)
        ensures
            r == self@,
            r != 0,
    {
        proof {
            use_type_invariant(self);
        }
        self.inner
    }

    /// The call that cloning this handle owes: one increment of its node.
    pub fn clone_call(&self) -> (c: RefCall)
        ensures
            c == RefCall::Incref(self@),
    {
        RefCall::Incref(self.inner)
    }

    /// The clone, once the increment of `clone_call` has been made and its
    /// status is known. A failed increment gives no clone: going on without
    /// the unit would let the node be freed while a handle still names it.
    pub fn complete_clone(&self, status: CallStatus) -> (r: Option<Value>)
        ensures
            r is Some <==> status == CallStatus::Succeeded,
            r is Some ==> r->0@ == self@,
    {
        proof {
            use_type_invariant(self);
        }
        match status {
            CallStatus::Succeeded => Some(Value { inner: self.inner }),
            CallStatus::Failed => None,
        }
    }

    /// Give up this handle. It owes exactly one decrement of its node, whatever
    /// that call later reports: a failure there can only leak the node.
    pub fn release(self) -> (c: RefCall)
        ensures
            c == RefCall::Decref(self@),
    {
        RefCall::Decref(self.inner)
    }
}

} // verus!
