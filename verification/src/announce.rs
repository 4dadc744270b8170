//! The spoken announcements, and text in the form the platform's speech
//! and drawing calls take: UTF-16 code units with a terminating zero.

use vstd::prelude::*;
use crate::actions::Announcement;

verus! {

impl Announcement {
    /// The words of the announcement.
    pub open spec fn spec_text(&self) -> Seq<char> {
        match *self {
            Announcement::Enabled => "Cruise control enabled"@,
            Announcement::Disabled => "Cruise control disabled"@,
        }
    }

    /// The words to speak: "Cruise control enabled" when cruise was
    /// switched on, "Cruise control disabled" when it was switched off.
    pub fn text(&self) -> (text: &'static str)
        ensures
            text@ == self.spec_text(),
    {
        match *self {
            Announcement::Enabled => "Cruise control enabled",
            Announcement::Disabled => "Cruise control disabled",
        }
    }
}

/// The UTF-16 code units of one character: the character itself if it lies
/// in the basic plane, else a high and a low surrogate that carry the upper
/// and the lower ten bits of its offset beyond that plane.
pub open spec fn utf16_units(c: char) -> Seq<u16> {
    let code = c as u32;
    if code < 0x1_0000 {
        seq![code as u16]
    } else {
        seq![
            (0xD800 + (code - 0x1_0000) / 0x400) as u16,
            (0xDC00 + (code - 0x1_0000) % 0x400) as u16,
        ]
    }
}

/// The UTF-16 encoding of a text: the code units of its characters, in order.
pub open spec fn utf16(text: Seq<char>) -> Seq<u16>
    decreases text.len(),
{
    if text.len() == 0 {
        seq![]
    } else {
        utf16(text.drop_last()) + utf16_units(text.last())
    }
}

/// Encodes `text` as a wide string: its UTF-16 code units followed by one
/// terminating zero.
pub fn to_wide(text: &str) -> (wide: Vec<u16>)
    ensures
        wide@ == utf16(text@).push(0u16),
{
    let mut wide: Vec<u16> = Vec::new();
    for c in chars: text.chars()
        invariant
            chars.seq() == text@,
            wide@ == utf16(text@.take(chars.index() as int)),
    {
        let code = c as u32;
        if code < 0x1_0000 {
            wide.push(code as u16);
        } else {
            let offset = code - 0x1_0000;
            wide.push((0xD800 + offset / 0x400) as u16);
            wide.push((0xDC00 + offset % 0x400) as u16);
        }
        proof {
            let upto = text@.take(chars.index() + 1);
            assert(upto.drop_last() =~= text@.take(chars.index() as int));
            assert(upto.last() == c);
        }
    }
    proof {
        assert(text@.take(text@.len() as int) =~= text@);
    }
    wide.push(0);
    wide
}

} // verus!
