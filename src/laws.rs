use vstd::prelude::*;
use crate::delivery::matching_indices;
use crate::protocol::{
    initial, run, step, torn_down, unregister_count, Action, ClientMessage, Input, Phase,
    SessionState,
};

verus! {

/// How the phase, the registration flag and the number of unregistration
/// requests made so far fit together on every reachable state.
pub open spec fn consistent<F>(s: SessionState<F>, unregistered: nat) -> bool {
    match s.phase {
        Phase::Created | Phase::Registering | Phase::RegisterFailed | Phase::Cancelling => {
            !s.registered && unregistered == 0
        },
        Phase::Active | Phase::Closing => s.registered && unregistered == 0,
        Phase::Stopping => s.registered && unregistered == 1,
        Phase::Destroyed => unregistered == if s.registered { 1nat } else { 0nat },
    }
}

proof fn lemma_run_first<F>(s: SessionState<F>, input: Input<F>, rest: Seq<Input<F>>)
    ensures
        run(s, seq![input] + rest) == ({
            let (next, a) = step(s, input);
            let (last, acts) = run(next, rest);
            (last, seq![a] + acts)
        }),
{
    assert((seq![input] + rest).drop_first() =~= rest);
}

proof fn lemma_count_first(a: Action, rest: Seq<Action>)
    ensures
        unregister_count(seq![a] + rest) == (if a is Unregister { 1nat } else { 0nat })
            + unregister_count(rest),
{
    assert((seq![a] + rest).drop_first() =~= rest);
}

proof fn lemma_consistent_run<F>(s: SessionState<F>, c: nat, inputs: Seq<Input<F>>)
    requires
        consistent(s, c),
    ensures
        consistent(run(s, inputs).0, c + unregister_count(run(s, inputs).1)),
    decreases inputs.len(),
{
    if inputs.len() > 0 {
        let (next, a) = step(s, inputs[0]);
        let c1 = c + if a is Unregister { 1nat } else { 0nat };
        assert(consistent(next, c1));
        lemma_consistent_run(next, c1, inputs.drop_first());
        lemma_count_first(a, run(next, inputs.drop_first()).1);
    }
}

/// Teardown unregisters exactly once per registration: whatever inputs a
/// subscriber receives (client close, protocol error, a refused filter, a
/// refused registration, the connection dropping at any point), it asks the
/// dispatcher to unregister it at most once, never if it was never
/// registered, and once when it was registered and teardown has begun.
pub proof fn lemma_unregister_at_most_once<F>(inputs: Seq<Input<F>>)
    ensures
        ({
            let (s, actions) = run(initial::<F>(), inputs);
            &&& unregister_count(actions) <= 1
            &&& !s.registered ==> unregister_count(actions) == 0
            &&& unregister_count(actions) == 1 <==> (s.registered && torn_down(s))
        }),
{
    lemma_consistent_run(initial::<F>(), 0, inputs);
}

/// Events are delivered only while registered: every state reachable from a
/// new subscriber that is `Active` (the one phase in which batches are
/// delivered) has had its registration accepted.
pub proof fn lemma_active_only_when_registered<F>(inputs: Seq<Input<F>>)
    ensures
        run(initial::<F>(), inputs).0.phase == Phase::Active ==> run(
            initial::<F>(),
            inputs,
        ).0.registered,
{
    lemma_consistent_run(initial::<F>(), 0, inputs);
}

/// A subscriber whose registration was refused never becomes `Active`, so
/// it never delivers a batch, whatever inputs follow.
pub proof fn lemma_refused_never_active<F>(s: SessionState<F>, inputs: Seq<Input<F>>)
    requires
        s.phase == Phase::RegisterFailed,
    ensures
        run(s, inputs).0.phase == Phase::RegisterFailed || run(s, inputs).0.phase
            == Phase::Destroyed,
    decreases inputs.len(),
{
    if inputs.len() > 0 {
        let next = step(s, inputs[0]).0;
        if next.phase == Phase::RegisterFailed {
            lemma_refused_never_active(next, inputs.drop_first());
        } else {
            lemma_destroyed_stays(next, inputs.drop_first());
        }
    }
}

/// Nothing moves a destroyed subscriber.
pub proof fn lemma_destroyed_stays<F>(s: SessionState<F>, inputs: Seq<Input<F>>)
    requires
        s.phase == Phase::Destroyed,
    ensures
        run(s, inputs).0 == s,
        unregister_count(run(s, inputs).1) == 0,
    decreases inputs.len(),
{
    if inputs.len() > 0 {
        lemma_destroyed_stays(s, inputs.drop_first());
        lemma_count_first(Action::Nothing, run(s, inputs.drop_first()).1);
    }
}

/// Once a filter is accepted it stays, whatever inputs follow.
pub proof fn lemma_filter_fixed<F>(s: SessionState<F>, f: F, inputs: Seq<Input<F>>)
    requires
        s.filter == Some(f),
    ensures
        run(s, inputs).0.filter == Some(f),
    decreases inputs.len(),
{
    if inputs.len() > 0 {
        lemma_filter_fixed(step(s, inputs[0]).0, f, inputs.drop_first());
    }
}

/// A second filter text is ignored: after a filter was accepted, sending
/// another text yields no action and leaves everything that follows exactly
/// as if it had not been sent.
pub proof fn lemma_second_filter_ignored<F>(s: SessionState<F>, text: String, inputs: Seq<Input<F>>)
    requires
        s.filter is Some,
    ensures
        run(s, seq![Input::Client(ClientMessage::Text(text))] + inputs) == ({
            let (last, actions) = run(s, inputs);
            (last, seq![Action::Nothing] + actions)
        }),
{
    lemma_run_first(s, Input::Client(ClientMessage::Text(text)), inputs);
}

/// Without an accepted filter there is no delivery: a new subscriber that has
/// been handed no successfully parsed filter has none, so every batch pushed
/// to it is discarded.
pub proof fn lemma_no_filter_until_parsed<F>(inputs: Seq<Input<F>>)
    requires
        forall|i: int| 0 <= i < inputs.len() ==> !(#[trigger] inputs[i] matches Input::FilterParsed(Some(_))),
    ensures
        run(initial::<F>(), inputs).0.filter is None,
{
    lemma_no_filter_from(initial::<F>(), inputs);
}

proof fn lemma_no_filter_from<F>(s: SessionState<F>, inputs: Seq<Input<F>>)
    requires
        s.filter is None,
        forall|i: int| 0 <= i < inputs.len() ==> !(#[trigger] inputs[i] matches Input::FilterParsed(Some(_))),
    ensures
        run(s, inputs).0.filter is None,
    decreases inputs.len(),
{
    if inputs.len() > 0 {
        let rest = inputs.drop_first();
        assert forall|i: int| 0 <= i < rest.len() implies !(#[trigger] rest[i] matches Input::FilterParsed(
            Some(_),
        )) by {
            assert(rest[i] == inputs[i + 1]);
        }
        lemma_no_filter_from(step(s, inputs[0]).0, rest);
    }
}

/// A ping is transparent: while registered, before or after a filter was
/// accepted, a ping yields exactly one pong with its payload and changes
/// nothing for the inputs that follow.
pub proof fn lemma_ping_transparent<F>(s: SessionState<F>, payload: Vec<u8>, inputs: Seq<Input<F>>)
    requires
        s.phase == Phase::Active,
    ensures
        run(s, seq![Input::Client(ClientMessage::Ping(payload))] + inputs) == ({
            let (last, actions) = run(s, inputs);
            (last, seq![Action::Pong(payload)] + actions)
        }),
{
    lemma_run_first(s, Input::Client(ClientMessage::Ping(payload)), inputs);
}

/// Delivery keeps batch order and selects exactly the matching events: the
/// delivered positions are strictly increasing, each one matches, and every
/// matching position is delivered.
pub proof fn lemma_matching_indices_in_order(matched: Seq<bool>)
    requires
        matched.len() <= usize::MAX,
    ensures
        ({
            let r = matching_indices(matched);
            &&& forall|k: int| 0 <= k < r.len() ==> r[k] < matched.len() && matched[r[k] as int]
            &&& forall|j: int, k: int| 0 <= j < k < r.len() ==> r[j] < r[k]
            &&& forall|i: int|
                0 <= i < matched.len() && matched[i] ==> exists|k: int| 0 <= k < r.len() && r[k] == i
        }),
    decreases matched.len(),
{
    if matched.len() > 0 {
        let prev = matched.drop_last();
        lemma_matching_indices_in_order(prev);
        let r = matching_indices(matched);
        let e = matching_indices(prev);
        assert forall|i: int| 0 <= i < matched.len() && matched[i] implies exists|k: int|
            0 <= k < r.len() && r[k] == i by {
            if i < matched.len() - 1 {
                assert(prev[i]);
                let k = choose|k: int| 0 <= k < e.len() && e[k] == i;
                assert(r[k] == i);
            } else {
                assert(r[r.len() - 1] == i);
            }
        }
    }
}

} // verus!
