//! The executable controller: one call per polling tick.
//!
//! The caller samples the keyboard, hands the snapshot to [`Controller::tick`]
//! and performs the actions that come back, in order. Whether an injection
//! or an announcement succeeded is of no interest to the controller: it
//! carries on as if it had, and never asks for the same action twice.

use vstd::prelude::*;
use crate::actions::{forward_up, injects_forward_only, published, Action, Announcement};
use crate::keys::{KeySnapshot, FORWARD};
use crate::machine::{
    lemma_no_release_while_forward_held, lemma_tick_injects_forward_only,
    lemma_tick_publishes_engaged, State,
};
use crate::trace::{log, run};

verus! {

/// The cruise controller. It starts idle and is only ever changed by its
/// own methods, so it never holds an active cruise and a pending release
/// at once.
pub struct Controller {
    engaged: bool,
    pending_release: bool,
    previous: KeySnapshot,
}

impl View for Controller {
    type V = State;

    closed spec fn view(&self) -> State {
        State {
            engaged: self.engaged,
            pending_release: self.pending_release,
            previous: self.previous,
        }
    }
}

impl Controller {
    #[verifier::type_invariant]
    spec fn well_formed(self) -> bool {
        !(self.engaged && self.pending_release)
    }

    /// A controller in its initial state: idle, nothing owed, and every key
    /// taken as released, so that a key already held at the first tick
    /// shows a rising edge there.
    pub fn new() -> (controller: Controller)
        ensures
            controller@ == State::initial(),
    {
        Controller { engaged: false, pending_release: false, previous: KeySnapshot::released() }
    }

    /// Whether cruise is active.
    pub fn engaged(&self) -> (engaged: bool)
        ensures
            engaged == self@.engaged,
    {
        self.engaged
    }

    /// Whether a synthetic key-up is owed and waiting for the user to let
    /// go of the forward key.
    pub fn pending_release(&self) -> (pending: bool)
        ensures
            pending == self@.pending_release,
    {
        self.pending_release
    }

    /// The snapshot of the latest tick, or all keys released before the first.
    pub fn previous(&self) -> (snapshot: KeySnapshot)
        ensures
            snapshot == self@.previous,
    {
        self.previous
    }

    /// Advances the controller by one tick that sampled `snapshot` and
    /// returns the actions to perform, in order.
    ///
    /// The trigger is looked at first: its rising edge engages an idle
    /// controller unless forward is physically held or a release is still
    /// pending, and disengages an engaged one. Then a rising edge of any
    /// stop key disengages. Last, a pending release is carried out if
    /// forward is not physically held.
    ///
    /// Whatever the state, no key-up is asked for while forward is
    /// physically held, no key but forward is injected, and the flag that
    /// the actions publish ends up equal to the controller's engagement.
    pub fn tick(&mut self, snapshot: KeySnapshot) -> (actions: Vec<Action>)
        ensures
            final(self)@ == old(self)@.next(snapshot),
            actions@ == old(self)@.actions(snapshot),
            old(self)@.consistent(),
            final(self)@.consistent(),
            snapshot.forward ==> !actions@.contains(forward_up()),
            injects_forward_only(actions@),
            published(old(self)@.engaged, actions@) == final(self)@.engaged,
    {
        proof {
            use_type_invariant(&*self);
            if snapshot.forward {
                lemma_no_release_while_forward_held(self@, snapshot);
            }
            lemma_tick_injects_forward_only(self@, snapshot);
            lemma_tick_publishes_engaged(self@, snapshot);
        }
        let edges = snapshot.rising_edges(&self.previous);
        let mut engaged = self.engaged;
        let mut pending = self.pending_release;
        let mut actions: Vec<Action> = Vec::new();

        if edges.trigger {
            if !engaged && !pending {
                if !snapshot.forward {
                    actions.push(Action::Inject { key: FORWARD, down: true });
                    engaged = true;
                    actions.push(Action::Publish(true));
                    actions.push(Action::Announce(Announcement::Enabled));
                }
            } else if engaged {
                pending = true;
                engaged = false;
                actions.push(Action::Publish(false));
                actions.push(Action::Announce(Announcement::Disabled));
            }
        }

        if engaged && edges.any_stop() {
            pending = true;
            engaged = false;
            actions.push(Action::Publish(false));
            actions.push(Action::Announce(Announcement::Disabled));
        }

        if pending && !snapshot.forward {
            actions.push(Action::Inject { key: FORWARD, down: false });
            pending = false;
        }
        assert(actions@ =~= old(self)@.actions(snapshot));

        *self = Controller { engaged, pending_release: pending, previous: snapshot };
        actions
    }

    /// Ticks through `script`, one snapshot per tick, and returns every
    /// action asked for on the way, in order: the log that an environment
    /// which records instead of performing would hold afterwards.
    pub fn replay(&mut self, script: &[KeySnapshot]) -> (actions: Vec<Action>)
        ensures
            final(self)@ == run(old(self)@, script@),
            actions@ == log(old(self)@, script@),
            final(self)@.consistent(),
    {
        proof {
            use_type_invariant(&*self);
        }
        let mut actions: Vec<Action> = Vec::new();
        let mut done: usize = 0;
        while done < script.len()
            invariant
                done <= script.len(),
                self@ == run(old(self)@, script@.take(done as int)),
                actions@ == log(old(self)@, script@.take(done as int)),
                self@.consistent(),
            decreases script.len() - done,
        {
            let mut asked = self.tick(script[done]);
            actions.append(&mut asked);
            proof {
                let upto = script@.take(done + 1);
                assert(upto.drop_last() =~= script@.take(done as int));
                assert(upto.last() == script@[done as int]);
            }
            done += 1;
        }
        proof {
            assert(script@.take(done as int) =~= script@);
        }
        actions
    }

    /// Ends the controller on a clean shutdown and returns what is left to
    /// do: the synthetic key-up if cruise is active, so that forward is not
    /// left stuck down; nothing otherwise. A pending release is abandoned.
    pub fn shutdown(self) -> (actions: Vec<Action>)
        ensures
            actions@ == self@.shutdown_actions(),
    {
        let mut actions: Vec<Action> = Vec::new();
        if self.engaged {
            actions.push(Action::Inject { key: FORWARD, down: false });
        }
        actions
    }
}

} // verus!
