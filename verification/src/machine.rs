//! The cruise state machine as mathematics: what one tick does to the
//! controller's state and which actions it asks for, in which order.
//!
//! A tick is decided by three questions, each a predicate on the state
//! before the tick and the sampled keys: does the controller engage, does
//! it disengage, and does it release the synthetic forward press it owes.

use vstd::prelude::*;
use crate::actions::{
    downs, forward_down, forward_up, injects_forward_only, lemma_net_presses_concat,
    lemma_occurrences_concat, lemma_occurrences_prefix, lemma_occurrences_zero,
    lemma_published_concat, net_presses, occurrences, published, ups, Action, Announcement,
};
use crate::keys::{EdgeSnapshot, KeySnapshot};

verus! {

/// What the controller remembers between two ticks.
pub struct State {
    /// Whether cruise is active. `false` is the idle state.
    pub engaged: bool,
    /// Whether a synthetic forward press is still down after cruise ended,
    /// waiting for the user to let go of the physical key.
    pub pending_release: bool,
    /// The snapshot of the tick before, against which edges are taken.
    pub previous: KeySnapshot,
}

impl State {
    /// The state at start-up: idle, nothing owed, every key taken as released.
    pub open spec fn initial() -> State {
        State { engaged: false, pending_release: false, previous: KeySnapshot::spec_released() }
    }

    /// A state is consistent when it does not claim both an active cruise
    /// and a leftover press from an earlier one: there is only one
    /// synthetic press to account for.
    pub open spec fn consistent(self) -> bool {
        !(self.engaged && self.pending_release)
    }

    /// The number of synthetic forward presses that are down and not yet
    /// released in this state: one while engaged or while a release is
    /// pending, none otherwise.
    pub open spec fn outstanding(self) -> int {
        if self.engaged || self.pending_release {
            1
        } else {
            0
        }
    }

    /// The rising edges that `snapshot` shows in this state.
    pub open spec fn edges(self, snapshot: KeySnapshot) -> EdgeSnapshot {
        snapshot.edges_since(self.previous)
    }

    /// The tick engages: the trigger rises while the controller is idle
    /// and owes nothing, and the user is not holding forward.
    pub open spec fn engages(self, snapshot: KeySnapshot) -> bool {
        &&& self.edges(snapshot).trigger
        &&& !self.engaged
        &&& !self.pending_release
        &&& !snapshot.forward
    }

    /// Whether cruise is active once the trigger has been looked at: it was
    /// just engaged, or it was active and the trigger did not rise.
    pub open spec fn engaged_after_trigger(self, snapshot: KeySnapshot) -> bool {
        self.engages(snapshot) || (self.engaged && !self.edges(snapshot).trigger)
    }

    /// The tick disengages: the trigger rises while cruise is active, or
    /// a stop key rises while cruise is (still, or just now) active.
    pub open spec fn disengages(self, snapshot: KeySnapshot) -> bool {
        ||| self.engaged && self.edges(snapshot).trigger
        ||| self.engaged_after_trigger(snapshot) && self.edges(snapshot).spec_any_stop()
    }

    /// The tick releases the synthetic press: a release is owed, from before
    /// or from this tick's disengagement, and forward is not physically held.
    pub open spec fn releases(self, snapshot: KeySnapshot) -> bool {
        (self.pending_release || self.disengages(snapshot)) && !snapshot.forward
    }

    /// The state after a tick that sampled `snapshot`.
    pub open spec fn next(self, snapshot: KeySnapshot) -> State {
        State {
            engaged: self.engaged_after_trigger(snapshot) && !self.edges(
                snapshot,
            ).spec_any_stop(),
            pending_release: (self.pending_release || self.disengages(snapshot))
                && snapshot.forward,
            previous: snapshot,
        }
    }

    /// What engaging asks for: press forward, raise the flag, announce.
    pub open spec fn engage_actions(self, snapshot: KeySnapshot) -> Seq<Action> {
        if self.engages(snapshot) {
            seq![forward_down(), Action::Publish(true), Action::Announce(Announcement::Enabled)]
        } else {
            seq![]
        }
    }

    /// What disengaging asks for: lower the flag, announce. The forward
    /// press stays down; letting go of it is a separate decision.
    pub open spec fn disengage_actions(self, snapshot: KeySnapshot) -> Seq<Action> {
        if self.disengages(snapshot) {
            seq![Action::Publish(false), Action::Announce(Announcement::Disabled)]
        } else {
            seq![]
        }
    }

    /// What releasing asks for: the one synthetic key-up.
    pub open spec fn release_actions(self, snapshot: KeySnapshot) -> Seq<Action> {
        if self.releases(snapshot) {
            seq![forward_up()]
        } else {
            seq![]
        }
    }

    /// The actions of a tick that sampled `snapshot`, in order: engaging
    /// comes first, then disengaging, then the deferred release.
    pub open spec fn actions(self, snapshot: KeySnapshot) -> Seq<Action> {
        self.engage_actions(snapshot) + self.disengage_actions(snapshot) + self.release_actions(
            snapshot,
        )
    }

    /// What a clean shutdown asks for: the key-up for an active cruise, so
    /// that the game is not left with forward held. A release that is only
    /// pending is abandoned: the user's own finger is on the key.
    pub open spec fn shutdown_actions(self) -> Seq<Action> {
        if self.engaged {
            seq![forward_up()]
        } else {
            seq![]
        }
    }
}

/// A tick holds one synthetic press if it engages and none otherwise, one
/// synthetic release if it releases and none otherwise.
pub proof fn lemma_tick_counts(state: State, snapshot: KeySnapshot)
    ensures
        downs(state.actions(snapshot)) == if state.engages(snapshot) {
            1nat
        } else {
            0nat
        },
        ups(state.actions(snapshot)) == if state.releases(snapshot) {
            1nat
        } else {
            0nat
        },
{
    let engage = state.engage_actions(snapshot);
    let disengage = state.disengage_actions(snapshot);
    let release = state.release_actions(snapshot);
    lemma_net_presses_concat(engage, disengage);
    lemma_net_presses_concat(engage + disengage, release);
    reveal_with_fuel(occurrences, 4);
}

/// No second press while one is down: a tick that starts engaged, or with
/// a release still pending, makes no synthetic forward press. Cruise is
/// not engaged again before the press of the last one has been released.
pub proof fn lemma_no_press_while_one_is_down(state: State, snapshot: KeySnapshot)
    requires
        state.engaged || state.pending_release,
    ensures
        downs(state.actions(snapshot)) == 0,
        !state.actions(snapshot).contains(forward_down()),
{
    lemma_tick_counts(state, snapshot);
    lemma_occurrences_zero(state.actions(snapshot), forward_down());
}

/// A tick keeps a consistent state consistent.
pub proof fn lemma_tick_keeps_consistent(state: State, snapshot: KeySnapshot)
    requires
        state.consistent(),
    ensures
        state.next(snapshot).consistent(),
{
}

/// The books balance over a tick: the presses that were down before it,
/// plus those it makes, minus those it releases, are the presses that are
/// down after it.
pub proof fn lemma_tick_balance(state: State, snapshot: KeySnapshot)
    requires
        state.consistent(),
    ensures
        state.outstanding() + net_presses(state.actions(snapshot)) == state.next(
            snapshot,
        ).outstanding(),
{
    lemma_tick_counts(state, snapshot);
}

/// At no point within a tick is more than one synthetic press down, or
/// fewer than none: the balance holds after every single action.
pub proof fn lemma_tick_prefix_balance(state: State, snapshot: KeySnapshot, len: int)
    requires
        state.consistent(),
        0 <= len <= state.actions(snapshot).len(),
    ensures
        0 <= state.outstanding() + net_presses(state.actions(snapshot).take(len)) <= 1,
{
    let actions = state.actions(snapshot);
    let prefix = actions.take(len);
    lemma_tick_counts(state, snapshot);
    lemma_tick_balance(state, snapshot);
    if len == actions.len() {
        assert(prefix =~= actions);
    } else {
        let engage = state.engage_actions(snapshot);
        let disengage = state.disengage_actions(snapshot);
        let head = engage + disengage;
        lemma_net_presses_concat(engage, disengage);
        lemma_net_presses_concat(head, state.release_actions(snapshot));
        reveal_with_fuel(occurrences, 4);
        assert(ups(head) == 0);
        assert(prefix =~= head.take(len));
        lemma_occurrences_prefix(head, len, forward_up());
        lemma_occurrences_prefix(head, len, forward_down());
    }
}

/// No fight with the user's finger: a tick that samples forward as
/// physically pressed emits no synthetic forward release, whatever the
/// state.
pub proof fn lemma_no_release_while_forward_held(state: State, snapshot: KeySnapshot)
    requires
        snapshot.forward,
    ensures
        ups(state.actions(snapshot)) == 0,
        !state.actions(snapshot).contains(forward_up()),
{
    lemma_tick_counts(state, snapshot);
    lemma_occurrences_zero(state.actions(snapshot), forward_up());
}

/// The forward key is the only key a tick ever injects.
pub proof fn lemma_tick_injects_forward_only(state: State, snapshot: KeySnapshot)
    ensures
        injects_forward_only(state.actions(snapshot)),
        injects_forward_only(state.shutdown_actions()),
{
}

/// The flag mirrors the state: performing a tick's actions on a flag that
/// held the engagement before the tick leaves it at the engagement after.
pub proof fn lemma_tick_publishes_engaged(state: State, snapshot: KeySnapshot)
    ensures
        published(state.engaged, state.actions(snapshot)) == state.next(snapshot).engaged,
{
    let engage = state.engage_actions(snapshot);
    let disengage = state.disengage_actions(snapshot);
    let release = state.release_actions(snapshot);
    lemma_published_concat(state.engaged, engage, disengage);
    lemma_published_concat(state.engaged, engage + disengage, release);
    reveal_with_fuel(published, 4);
}

/// Coincident edges are harmless: when the trigger and a stop key rise on
/// the same tick, the controller ends the tick idle with the flag lowered,
/// whatever state it was in. It disengages at most once, and at most the
/// one synthetic press is left down, as a pending release.
pub proof fn lemma_coincident_trigger_and_stop(state: State, snapshot: KeySnapshot)
    requires
        state.edges(snapshot).trigger,
        state.edges(snapshot).spec_any_stop(),
    ensures
        !state.next(snapshot).engaged,
        !published(state.engaged, state.actions(snapshot)),
        occurrences(state.actions(snapshot), Action::Announce(Announcement::Disabled)) <= 1,
        state.consistent() ==> state.outstanding() + net_presses(state.actions(snapshot))
            == if state.next(snapshot).pending_release {
            1int
        } else {
            0int
        },
{
    lemma_tick_publishes_engaged(state, snapshot);
    if state.consistent() {
        lemma_tick_balance(state, snapshot);
    }
    let engage = state.engage_actions(snapshot);
    let disengage = state.disengage_actions(snapshot);
    let release = state.release_actions(snapshot);
    let wanted = Action::Announce(Announcement::Disabled);
    lemma_occurrences_concat(engage, disengage, wanted);
    lemma_occurrences_concat(engage + disengage, release, wanted);
    reveal_with_fuel(occurrences, 4);
}

} // verus!
