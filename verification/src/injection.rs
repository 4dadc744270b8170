//! The input record behind a synthetic key event.
//!
//! The platform takes a keyboard event as a small record: the virtual key,
//! a scan code, flags that tell a release from a press, a time stamp and an
//! extra word. The controller's events carry the virtual key and the
//! up/down flag and leave everything else zero, for the system to fill in.

use vstd::prelude::*;
use crate::actions::Action;

verus! {

/// Type tag of an input record that describes a keyboard event.
pub const INPUT_KEYBOARD: u32 = 1;

/// Flag of a keyboard record that marks a key release; without it the
/// record is a key press.
pub const KEYEVENTF_KEYUP: u32 = 0x0002;

/// The fields of one keyboard input record.
#[derive(Clone, Copy, Debug, PartialEq, Eq, Structural)]
pub struct KeyboardInput {
    /// The virtual key code the event is for.
    pub virtual_key: u16,
    /// The hardware scan code; zero leaves it to the system.
    pub scan_code: u16,
    /// Event flags: `KEYEVENTF_KEYUP` for a release, zero for a press.
    pub flags: u32,
    /// The time stamp; zero lets the system provide its own.
    pub time: u32,
    /// An extra word handed through to whoever receives the event.
    pub extra_info: usize,
}

impl KeyboardInput {
    /// The record of a synthetic event for `key`: a press if `down`, else a
    /// release.
    pub open spec fn for_key(key: u16, down: bool) -> KeyboardInput {
        KeyboardInput {
            virtual_key: key,
            scan_code: 0,
            flags: if down {
                0
            } else {
                KEYEVENTF_KEYUP
            },
            time: 0,
            extra_info: 0,
        }
    }
}

/// Builds the record of a synthetic event for the virtual key `key`: a
/// press if `down`, else a release. Scan code, time and extra word are zero.
pub fn keyboard_input(key: u16, down: bool) -> (input: KeyboardInput)
    ensures
        input == KeyboardInput::for_key(key, down),
        input.virtual_key == key,
        (input.flags == 0) == down,
{
    let flags: u32 = if down {
        0
    } else {
        KEYEVENTF_KEYUP
    };
    KeyboardInput { virtual_key: key, scan_code: 0, flags, time: 0, extra_info: 0 }
}

/// Whether an injection went through, given how many events the system
/// reports as inserted into the input stream: the one that was handed
/// over. A failure is final; the event is not offered again.
pub fn injection_succeeded(inserted: u32) -> (accepted: bool)
    ensures
        accepted == (inserted == 1),
{
    inserted == 1
}

/// The record to inject for an action, if the action is an injection.
pub fn injection_of(action: &Action) -> (input: Option<KeyboardInput>)
    ensures
        input == match *action {
            Action::Inject { key, down } => Some(KeyboardInput::for_key(key, down)),
            _ => None::<KeyboardInput>,
        },
{
    match *action {
        Action::Inject { key, down } => Some(keyboard_input(key, down)),
        _ => None,
    }
}

} // verus!
