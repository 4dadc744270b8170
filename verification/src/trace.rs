//! Whole runs of the controller: the state and the action log after a
//! sequence of ticks, and what holds of every run.

use vstd::prelude::*;
use crate::actions::{
    downs, forward_down, forward_up, lemma_net_presses_concat, lemma_occurrences_zero,
    lemma_published_concat, net_presses, occurrences, published, ups, Action,
};
use crate::keys::KeySnapshot;
use crate::machine::{
    lemma_tick_balance, lemma_tick_counts, lemma_tick_keeps_consistent,
    lemma_tick_prefix_balance, lemma_tick_publishes_engaged, State,
};

verus! {

/// The state after ticking through `inputs`, one snapshot per tick,
/// starting in `start`.
pub open spec fn run(start: State, inputs: Seq<KeySnapshot>) -> State
    decreases inputs.len(),
{
    if inputs.len() == 0 {
        start
    } else {
        run(start, inputs.drop_last()).next(inputs.last())
    }
}

/// Every action asked for while ticking through `inputs` from `start`, in
/// the order in which they are to be performed.
pub open spec fn log(start: State, inputs: Seq<KeySnapshot>) -> Seq<Action>
    decreases inputs.len(),
{
    if inputs.len() == 0 {
        Seq::empty()
    } else {
        log(start, inputs.drop_last()) + run(start, inputs.drop_last()).actions(inputs.last())
    }
}

/// The state in which tick number `tick` of the run starts.
pub open spec fn state_before(start: State, inputs: Seq<KeySnapshot>, tick: int) -> State {
    run(start, inputs.take(tick))
}

/// Whether the trigger has a rising edge at tick number `tick` of the run.
pub open spec fn trigger_rises_at(start: State, inputs: Seq<KeySnapshot>, tick: int) -> bool {
    state_before(start, inputs, tick).edges(inputs[tick]).trigger
}

/// Whether the controller disengages at tick number `tick` of the run.
pub open spec fn disengages_at(start: State, inputs: Seq<KeySnapshot>, tick: int) -> bool {
    state_before(start, inputs, tick).disengages(inputs[tick])
}

/// The books balance over a run: a consistent start stays consistent, and
/// the presses that were down at the start plus the net presses of the log
/// are the presses that are down at the end.
pub proof fn lemma_run_balance(start: State, inputs: Seq<KeySnapshot>)
    requires
        start.consistent(),
    ensures
        run(start, inputs).consistent(),
        start.outstanding() + net_presses(log(start, inputs)) == run(start, inputs).outstanding(),
    decreases inputs.len(),
{
    if inputs.len() > 0 {
        let before = run(start, inputs.drop_last());
        lemma_run_balance(start, inputs.drop_last());
        lemma_tick_keeps_consistent(before, inputs.last());
        lemma_tick_balance(before, inputs.last());
        lemma_net_presses_concat(log(start, inputs.drop_last()), before.actions(inputs.last()));
    }
}

/// Single engagement: at every point of a run from the initial state, in
/// the middle of a tick as much as between two ticks, the synthetic forward
/// presses made so far exceed the releases by zero or one.
pub proof fn lemma_single_engagement(inputs: Seq<KeySnapshot>, len: int)
    requires
        0 <= len <= log(State::initial(), inputs).len(),
    ensures
        0 <= net_presses(log(State::initial(), inputs).take(len)) <= 1,
{
    lemma_outstanding_bounded(State::initial(), inputs, len);
}

/// At every point of a run from a consistent state, the presses that were
/// down at the start plus the net presses made so far are zero or one.
pub proof fn lemma_outstanding_bounded(start: State, inputs: Seq<KeySnapshot>, len: int)
    requires
        start.consistent(),
        0 <= len <= log(start, inputs).len(),
    ensures
        0 <= start.outstanding() + net_presses(log(start, inputs).take(len)) <= 1,
    decreases inputs.len(),
{
    if inputs.len() == 0 {
        assert(log(start, inputs).take(len) =~= Seq::<Action>::empty());
    } else {
        let earlier = log(start, inputs.drop_last());
        let before = run(start, inputs.drop_last());
        let latest = before.actions(inputs.last());
        if len <= earlier.len() {
            assert(log(start, inputs).take(len) =~= earlier.take(len));
            lemma_outstanding_bounded(start, inputs.drop_last(), len);
        } else {
            let within = len - earlier.len();
            assert(log(start, inputs).take(len) =~= earlier + latest.take(within));
            lemma_run_balance(start, inputs.drop_last());
            lemma_net_presses_concat(earlier, latest.take(within));
            lemma_tick_prefix_balance(before, inputs.last(), within);
        }
    }
}

/// Every synthetic release answers a press: wherever the log of a run from
/// the initial state holds a forward key-up, an earlier place holds a
/// forward key-down. A press and its release therefore come in that order.
pub proof fn lemma_release_follows_press(inputs: Seq<KeySnapshot>, at: int)
    requires
        0 <= at < log(State::initial(), inputs).len(),
        log(State::initial(), inputs)[at] == forward_up(),
    ensures
        exists|earlier: int|
            0 <= earlier < at && #[trigger] log(State::initial(), inputs)[earlier]
                == forward_down(),
{
    let whole = log(State::initial(), inputs);
    let upto = whole.take(at + 1);
    lemma_single_engagement(inputs, at + 1);
    assert(upto.drop_last() =~= whole.take(at));
    assert(upto.last() == forward_up());
    assert(ups(upto) >= 1);
    assert(downs(upto) == downs(whole.take(at)));
    lemma_occurrences_zero(whole.take(at), forward_down());
    let earlier = choose|earlier: int|
        0 <= earlier < whole.take(at).len() && whole.take(at)[earlier] == forward_down();
    assert(whole[earlier] == forward_down());
}

/// While cruise is engaged, exactly one synthetic forward press has been
/// made that has not been released; while it is not engaged and no release
/// is pending, every press has been released.
pub proof fn lemma_engaged_holds_one_press(inputs: Seq<KeySnapshot>)
    ensures
        run(State::initial(), inputs).engaged ==> downs(log(State::initial(), inputs)) == ups(
            log(State::initial(), inputs),
        ) + 1,
        !run(State::initial(), inputs).engaged && !run(State::initial(), inputs).pending_release
            ==> downs(log(State::initial(), inputs)) == ups(log(State::initial(), inputs)),
{
    lemma_run_balance(State::initial(), inputs);
}

/// No stuck key: a run from the initial state whose last tick samples every
/// key as released, and which does not end with cruise engaged, has
/// released every synthetic forward press it made.
///
/// A run that ends engaged is left out: there the one press is down on
/// purpose, until the user stops the cruise or the controller shuts down.
pub proof fn lemma_no_stuck_key(inputs: Seq<KeySnapshot>)
    requires
        inputs.len() > 0,
        inputs.last() == KeySnapshot::spec_released(),
        !run(State::initial(), inputs).engaged,
    ensures
        net_presses(log(State::initial(), inputs)) == 0,
        downs(log(State::initial(), inputs)) == ups(log(State::initial(), inputs)),
{
    lemma_run_balance(State::initial(), inputs);
}

/// A clean shutdown leaves no key stuck: if the last tick sampled forward
/// as released, the log of the run followed by the shutdown actions holds
/// as many synthetic releases as presses.
pub proof fn lemma_shutdown_releases(inputs: Seq<KeySnapshot>)
    requires
        inputs.len() > 0,
        !inputs.last().forward,
    ensures
        net_presses(
            log(State::initial(), inputs) + run(State::initial(), inputs).shutdown_actions(),
        ) == 0,
{
    let end = run(State::initial(), inputs);
    lemma_run_balance(State::initial(), inputs);
    lemma_net_presses_concat(log(State::initial(), inputs), end.shutdown_actions());
    reveal_with_fuel(occurrences, 2);
}

/// The flag mirrors the state over a run: performing the log on a flag
/// that held the engagement at the start leaves it at the engagement at
/// the end.
pub proof fn lemma_run_publishes_engaged(start: State, inputs: Seq<KeySnapshot>)
    ensures
        published(start.engaged, log(start, inputs)) == run(start, inputs).engaged,
    decreases inputs.len(),
{
    if inputs.len() > 0 {
        let before = run(start, inputs.drop_last());
        lemma_run_publishes_engaged(start, inputs.drop_last());
        lemma_published_concat(
            start.engaged,
            log(start, inputs.drop_last()),
            before.actions(inputs.last()),
        );
        lemma_tick_publishes_engaged(before, inputs.last());
    }
}

/// Mirror: after every tick of a run from the initial state, the flag that
/// the indicator reads, which starts out lowered, equals the controller's
/// engagement.
pub proof fn lemma_mirror(inputs: Seq<KeySnapshot>)
    ensures
        published(false, log(State::initial(), inputs)) == run(State::initial(), inputs).engaged,
{
    lemma_run_publishes_engaged(State::initial(), inputs);
}

/// What holds of all ticks of a stretch but the last holds of all ticks of
/// the stretch without its last tick: the ticks are the same and start in
/// the same states.
proof fn lemma_front_of_quiet_stretch(start: State, inputs: Seq<KeySnapshot>)
    requires
        inputs.len() > 0,
        forall|tick: int|
            0 <= tick < inputs.len() - 1 ==> !#[trigger] disengages_at(start, inputs, tick),
        forall|tick: int|
            1 <= tick < inputs.len() - 1 ==> !#[trigger] trigger_rises_at(start, inputs, tick),
    ensures
        forall|tick: int|
            0 <= tick < inputs.len() - 1 ==> !#[trigger] disengages_at(
                start,
                inputs.drop_last(),
                tick,
            ),
        forall|tick: int|
            1 <= tick < inputs.len() - 1 ==> !#[trigger] trigger_rises_at(
                start,
                inputs.drop_last(),
                tick,
            ),
{
    let front = inputs.drop_last();
    assert forall|tick: int| 0 <= tick < front.len() implies !#[trigger] disengages_at(
        start,
        front,
        tick,
    ) by {
        assert(front.take(tick) =~= inputs.take(tick));
        assert(!disengages_at(start, inputs, tick));
    }
    assert forall|tick: int| 1 <= tick < front.len() implies !#[trigger] trigger_rises_at(
        start,
        front,
        tick,
    ) by {
        assert(front.take(tick) =~= inputs.take(tick));
        assert(!trigger_rises_at(start, inputs, tick));
    }
}

/// A stretch of ticks without a disengagement, in which the trigger rises
/// at most at the first tick, makes at most one synthetic press, and if it
/// makes one it ends engaged.
pub proof fn lemma_quiet_stretch(start: State, inputs: Seq<KeySnapshot>)
    requires
        forall|tick: int|
            0 <= tick < inputs.len() ==> !#[trigger] disengages_at(start, inputs, tick),
        forall|tick: int|
            1 <= tick < inputs.len() ==> !#[trigger] trigger_rises_at(start, inputs, tick),
    ensures
        downs(log(start, inputs)) <= 1,
        downs(log(start, inputs)) == 1 ==> run(start, inputs).engaged,
    decreases inputs.len(),
{
    if inputs.len() > 0 {
        let front = inputs.drop_last();
        let last = inputs.len() - 1;
        let before = run(start, front);
        assert(inputs.take(last) =~= front);
        lemma_front_of_quiet_stretch(start, inputs);
        lemma_quiet_stretch(start, front);
        lemma_tick_counts(before, inputs.last());
        lemma_net_presses_concat(log(start, front), before.actions(inputs.last()));
        assert(!disengages_at(start, inputs, last));
        if last >= 1 {
            assert(!trigger_rises_at(start, inputs, last));
        } else {
            assert(front =~= Seq::<KeySnapshot>::empty());
        }
    }
}

/// No double engage: over a stretch of ticks that begins and ends with a
/// rising trigger, with no rising trigger in between and no disengagement
/// before the last tick, at most one synthetic forward press is made,
/// whatever the state the stretch starts in.
pub proof fn lemma_no_double_engage(start: State, inputs: Seq<KeySnapshot>)
    requires
        inputs.len() >= 2,
        trigger_rises_at(start, inputs, 0),
        trigger_rises_at(start, inputs, inputs.len() - 1),
        forall|tick: int|
            1 <= tick < inputs.len() - 1 ==> !#[trigger] trigger_rises_at(start, inputs, tick),
        forall|tick: int|
            0 <= tick < inputs.len() - 1 ==> !#[trigger] disengages_at(start, inputs, tick),
    ensures
        downs(log(start, inputs)) <= 1,
{
    let front = inputs.drop_last();
    let before = run(start, front);
    lemma_front_of_quiet_stretch(start, inputs);
    lemma_quiet_stretch(start, front);
    lemma_tick_counts(before, inputs.last());
    lemma_net_presses_concat(log(start, front), before.actions(inputs.last()));
}

} // verus!
