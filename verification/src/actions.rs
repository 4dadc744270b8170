//! The actions the controller asks for, and how to read a list of them:
//! how many synthetic presses and releases it holds, and which value of the
//! engagement flag it leaves behind.

use vstd::prelude::*;
use crate::keys::FORWARD;

verus! {

/// A short spoken message that accompanies a change of engagement.
#[derive(Clone, Copy, Debug, PartialEq, Eq, Structural)]
pub enum Announcement {
    /// Cruise was switched on.
    Enabled,
    /// Cruise was switched off.
    Disabled,
}

/// One thing the controller asks its environment to do. The actions of a
/// tick are performed in the order in which they are listed.
#[derive(Clone, Copy, Debug, PartialEq, Eq, Structural)]
pub enum Action {
    /// Inject a synthetic key event: key-down if `down`, else key-up.
    Inject { key: u16, down: bool },
    /// Write the shared engagement flag that the indicator reads.
    Publish(bool),
    /// Speak an announcement, without waiting for it.
    Announce(Announcement),
}

/// The synthetic press of the forward key.
pub open spec fn forward_down() -> Action {
    Action::Inject { key: FORWARD, down: true }
}

/// The synthetic release of the forward key.
pub open spec fn forward_up() -> Action {
    Action::Inject { key: FORWARD, down: false }
}

/// How often `wanted` occurs in `actions`.
pub open spec fn occurrences(actions: Seq<Action>, wanted: Action) -> nat
    decreases actions.len(),
{
    if actions.len() == 0 {
        0
    } else {
        occurrences(actions.drop_last(), wanted) + if actions.last() == wanted {
            1nat
        } else {
            0nat
        }
    }
}

/// The number of synthetic forward presses in `actions`.
pub open spec fn downs(actions: Seq<Action>) -> nat {
    occurrences(actions, forward_down())
}

/// The number of synthetic forward releases in `actions`.
pub open spec fn ups(actions: Seq<Action>) -> nat {
    occurrences(actions, forward_up())
}

/// Synthetic forward presses minus releases: how many presses `actions`
/// leaves down.
pub open spec fn net_presses(actions: Seq<Action>) -> int {
    downs(actions) - ups(actions)
}

/// The value of the engagement flag once `actions` have been performed on a
/// flag that held `flag`: what the last `Publish` wrote, or `flag` itself
/// if there was none.
pub open spec fn published(flag: bool, actions: Seq<Action>) -> bool
    decreases actions.len(),
{
    if actions.len() == 0 {
        flag
    } else {
        match actions.last() {
            Action::Publish(value) => value,
            _ => published(flag, actions.drop_last()),
        }
    }
}

/// Whether every injection in `actions` is for the forward key.
pub open spec fn injects_forward_only(actions: Seq<Action>) -> bool {
    forall|i: int|
        0 <= i < actions.len() ==> (#[trigger] actions[i] matches Action::Inject { key, .. }
            ==> key == FORWARD)
}

/// Occurrences add up over concatenation.
pub proof fn lemma_occurrences_concat(first: Seq<Action>, second: Seq<Action>, wanted: Action)
    ensures
        occurrences(first + second, wanted) == occurrences(first, wanted) + occurrences(
            second,
            wanted,
        ),
    decreases second.len(),
{
    if second.len() == 0 {
        assert(first + second =~= first);
    } else {
        assert((first + second).drop_last() =~= first + second.drop_last());
        lemma_occurrences_concat(first, second.drop_last(), wanted);
    }
}

/// A prefix holds no more occurrences than the whole list.
pub proof fn lemma_occurrences_prefix(actions: Seq<Action>, len: int, wanted: Action)
    requires
        0 <= len <= actions.len(),
    ensures
        occurrences(actions.take(len), wanted) <= occurrences(actions, wanted),
{
    assert(actions =~= actions.take(len) + actions.skip(len));
    lemma_occurrences_concat(actions.take(len), actions.skip(len), wanted);
}

/// An action that does not occur in a list is counted zero times, and the
/// other way round.
pub proof fn lemma_occurrences_zero(actions: Seq<Action>, wanted: Action)
    ensures
        occurrences(actions, wanted) == 0 <==> !actions.contains(wanted),
    decreases actions.len(),
{
    if actions.len() > 0 {
        let front = actions.drop_last();
        lemma_occurrences_zero(front, wanted);
        if actions.contains(wanted) {
            let i = choose|i: int| 0 <= i < actions.len() && actions[i] == wanted;
            if i < front.len() {
                assert(front[i] == wanted);
            }
        }
        if front.contains(wanted) {
            let i = choose|i: int| 0 <= i < front.len() && front[i] == wanted;
            assert(actions[i] == wanted);
        }
        if actions.last() == wanted {
            assert(actions[actions.len() - 1] == wanted);
        }
    }
}

/// Net presses add up over concatenation.
pub proof fn lemma_net_presses_concat(first: Seq<Action>, second: Seq<Action>)
    ensures
        downs(first + second) == downs(first) + downs(second),
        ups(first + second) == ups(first) + ups(second),
        net_presses(first + second) == net_presses(first) + net_presses(second),
{
    lemma_occurrences_concat(first, second, forward_down());
    lemma_occurrences_concat(first, second, forward_up());
}

/// Performing two lists in a row is performing the second on the flag that
/// the first leaves behind.
pub proof fn lemma_published_concat(flag: bool, first: Seq<Action>, second: Seq<Action>)
    ensures
        published(flag, first + second) == published(published(flag, first), second),
    decreases second.len(),
{
    if second.len() == 0 {
        assert(first + second =~= first);
    } else {
        assert((first + second).drop_last() =~= first + second.drop_last());
        lemma_published_concat(flag, first, second.drop_last());
    }
}

} // verus!
