//! Virtual key codes, the sampled state of the tracked keys, and edges.

use vstd::prelude::*;

verus! {

/// Virtual key code of the key that starts or toggles cruise (Page Up).
pub const TRIGGER: u16 = 0x21;

/// Virtual key code of the alternative stop key (Page Down).
pub const DISENGAGE_ALT: u16 = 0x22;

/// Virtual key code of the forward key (W), the only key ever injected.
pub const FORWARD: u16 = 0x57;

/// Virtual key code of the brake key (S).
pub const BRAKE: u16 = 0x53;

/// Virtual key code of the handbrake key (Space).
pub const HANDBRAKE: u16 = 0x20;

/// Milliseconds between two samples of the keyboard (100 Hz).
pub const POLL_INTERVAL_MS: u64 = 10;

/// Pressed state of the five tracked keys at one polling instant.
#[derive(Clone, Copy, Debug, PartialEq, Eq, Structural)]
pub struct KeySnapshot {
    pub trigger: bool,
    pub disengage_alt: bool,
    pub forward: bool,
    pub brake: bool,
    pub handbrake: bool,
}

/// Per key, whether it went from released to pressed between two samples.
#[derive(Clone, Copy, Debug, PartialEq, Eq, Structural)]
pub struct EdgeSnapshot {
    pub trigger: bool,
    pub disengage_alt: bool,
    pub forward: bool,
    pub brake: bool,
    pub handbrake: bool,
}

/// A key rises when it is pressed now and was released at the sample before.
pub open spec fn rose(previous: bool, current: bool) -> bool {
    current && !previous
}

/// Whether a raw asynchronous key state reports the key as held: the most
/// significant bit is set, which for a signed value means it is negative.
/// The low bits ("pressed since the last query") are ignored.
pub fn key_state_is_down(raw: i16) -> (down: bool)
    ensures
        down == (raw < 0),
{
    let bits: u16 = #[verifier::truncate] (raw as u16);
    assert((bits & 0x8000 != 0) == (raw < 0)) by (bit_vector)
        requires
            bits == raw as u16,
    ;
    bits & 0x8000 != 0
}

impl KeySnapshot {
    /// The snapshot in which no key is pressed.
    pub open spec fn spec_released() -> KeySnapshot {
        KeySnapshot {
            trigger: false,
            disengage_alt: false,
            forward: false,
            brake: false,
            handbrake: false,
        }
    }

    /// The snapshot in which no key is pressed: what the controller assumes
    /// to have come before its first sample.
    #[verifier::when_used_as_spec(spec_released)]
    pub fn released() -> (snapshot: KeySnapshot)
        ensures
            snapshot == KeySnapshot::spec_released(),
    {
        KeySnapshot {
            trigger: false,
            disengage_alt: false,
            forward: false,
            brake: false,
            handbrake: false,
        }
    }

    /// The snapshot for one tick given the outcome of polling: a failed read
    /// counts as every key released for that tick.
    pub fn from_poll(read: Option<KeySnapshot>) -> (snapshot: KeySnapshot)
        ensures
            snapshot == match read {
                Some(sample) => sample,
                None => KeySnapshot::spec_released(),
            },
    {
        match read {
            Some(sample) => sample,
            None => KeySnapshot::released(),
        }
    }

    /// The rising edges of this snapshot relative to the one before it.
    pub open spec fn edges_since(self, previous: KeySnapshot) -> EdgeSnapshot {
        EdgeSnapshot {
            trigger: rose(previous.trigger, self.trigger),
            disengage_alt: rose(previous.disengage_alt, self.disengage_alt),
            forward: rose(previous.forward, self.forward),
            brake: rose(previous.brake, self.brake),
            handbrake: rose(previous.handbrake, self.handbrake),
        }
    }

    /// Diffs this snapshot against the previous one, key by key.
    pub fn rising_edges(&self, previous: &KeySnapshot) -> (edges: EdgeSnapshot)
        ensures
            edges == self.edges_since(*previous),
    {
        EdgeSnapshot {
            trigger: self.trigger && !previous.trigger,
            disengage_alt: self.disengage_alt && !previous.disengage_alt,
            forward: self.forward && !previous.forward,
            brake: self.brake && !previous.brake,
            handbrake: self.handbrake && !previous.handbrake,
        }
    }
}

impl EdgeSnapshot {
    /// Whether any key that ends an active cruise has a rising edge:
    /// forward, brake, handbrake or the alternative stop key.
    pub open spec fn spec_any_stop(&self) -> bool {
        self.forward || self.brake || self.handbrake || self.disengage_alt
    }

    /// Whether any key that ends an active cruise has a rising edge.
    #[verifier::when_used_as_spec(spec_any_stop)]
    pub fn any_stop(&self) -> (stop: bool)
        ensures
            stop == self.spec_any_stop(),
    {
        self.forward || self.brake || self.handbrake || self.disengage_alt
    }
}

} // verus!
