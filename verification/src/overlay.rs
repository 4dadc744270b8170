//! What the on-screen indicator shows, and how its window answers the
//! messages it receives.
//!
//! The indicator is a small framed box near the upper-right corner of the
//! screen: green and labelled "On" while cruise is engaged, red and
//! labelled "Off" while it is not. Its window is layered, click-through and
//! always on top; everything painted black is transparent.

use vstd::prelude::*;

verus! {

/// Distance in pixels between the indicator and the top and right edges.
pub const PADDING: i32 = 8;

/// Width of the indicator box in pixels.
pub const BOX_WIDTH: i32 = 64;

/// Height of the indicator box in pixels.
pub const BOX_HEIGHT: i32 = 24;

/// Width in pixels of the pen that draws the frame.
pub const FRAME_WIDTH: i32 = 2;

/// The colour that the layered window treats as transparent: black.
pub const COLOR_KEY: u32 = 0;

/// Message sent once when the window is created.
pub const WM_CREATE: u32 = 0x0001;

/// Message sent when the window is being destroyed.
pub const WM_DESTROY: u32 = 0x0002;

/// Message that asks the window to paint itself.
pub const WM_PAINT: u32 = 0x000F;

/// Message that ends the message loop.
pub const WM_QUIT: u32 = 0x0012;

/// Message that asks the window to erase its background.
pub const WM_ERASEBKGND: u32 = 0x0014;

/// Message that asks which part of the window lies under the cursor.
pub const WM_NCHITTEST: u32 = 0x0084;

/// Hit-test answer "nothing here": the click goes to the window below.
pub const HTTRANSPARENT: isize = -1;

/// Extended style bit: tool window, kept out of the task bar.
pub const WS_EX_TOOLWINDOW: u32 = 0x0000_0080;

/// Extended style bit: stays above all windows that are not topmost.
pub const WS_EX_TOPMOST: u32 = 0x0000_0008;

/// Extended style bit: does not take mouse input.
pub const WS_EX_TRANSPARENT: u32 = 0x0000_0020;

/// Extended style bit: layered window, which allows a colour key.
pub const WS_EX_LAYERED: u32 = 0x0008_0000;

/// A rectangle in pixel coordinates; `right` and `bottom` are exclusive.
#[derive(Clone, Copy, Debug, PartialEq, Eq, Structural)]
pub struct Rect {
    pub left: i32,
    pub top: i32,
    pub right: i32,
    pub bottom: i32,
}

/// Packs three colour channels into one colour value: red in the lowest
/// byte, green in the next, blue in the third; the top byte is zero.
pub fn rgb(red: u8, green: u8, blue: u8) -> (color: u32)
    ensures
        color == red + 0x100 * green + 0x1_0000 * blue,
{
    let r: u32 = red as u32;
    let g: u32 = green as u32;
    let b: u32 = blue as u32;
    assert((r | (g << 8) | (b << 16)) == r + 0x100 * g + 0x1_0000 * b) by (bit_vector)
        requires
            r < 0x100,
            g < 0x100,
            b < 0x100,
    ;
    r | (g << 8) | (b << 16)
}

/// The colour of the indicator as a packed value: pure green while
/// engaged, pure red while not.
pub open spec fn spec_indicator_color(engaged: bool) -> u32 {
    if engaged {
        0x0000_FF00
    } else {
        0x0000_00FF
    }
}

/// The colour of the indicator's frame and text: green (0, 255, 0) while
/// cruise is engaged, red (255, 0, 0) while it is not.
#[verifier::when_used_as_spec(spec_indicator_color)]
pub fn indicator_color(engaged: bool) -> (color: u32)
    ensures
        color == spec_indicator_color(engaged),
        color != COLOR_KEY,
{
    if engaged {
        rgb(0, 255, 0)
    } else {
        rgb(255, 0, 0)
    }
}

/// The indicator's label: "On" while cruise is engaged, "Off" while not.
pub fn indicator_label(engaged: bool) -> (label: &'static str)
    ensures
        label@ == if engaged {
            "On"@
        } else {
            "Off"@
        },
{
    if engaged {
        "On"
    } else {
        "Off"
    }
}

/// Where the indicator box goes in a client area: its top edge `PADDING`
/// below the top of the area, its right edge `PADDING` left of the area's
/// right edge, `BOX_WIDTH` wide and `BOX_HEIGHT` high.
pub open spec fn spec_indicator_frame(client: Rect) -> Rect {
    Rect {
        left: (client.right - PADDING - BOX_WIDTH) as i32,
        top: (client.top + PADDING) as i32,
        right: (client.right - PADDING) as i32,
        bottom: (client.top + PADDING + BOX_HEIGHT) as i32,
    }
}

/// Whether the indicator box for `client` has coordinates that fit the
/// coordinate type. Every client area that a window reports does: its top
/// left corner is the origin and its extent is not negative.
pub open spec fn frame_fits(client: Rect) -> bool {
    &&& client.right - PADDING - BOX_WIDTH >= i32::MIN
    &&& client.top + PADDING + BOX_HEIGHT <= i32::MAX
}

/// Decides whether the indicator box for `client` can be computed.
pub fn frame_in_range(client: &Rect) -> (fits: bool)
    ensures
        fits == frame_fits(*client),
{
    client.right >= i32::MIN + PADDING + BOX_WIDTH && client.top <= i32::MAX - PADDING - BOX_HEIGHT
}

/// Computes the indicator box in the upper-right corner of `client`.
pub fn indicator_frame(client: &Rect) -> (frame: Rect)
    requires
        frame_fits(*client),
    ensures
        frame == spec_indicator_frame(*client),
        frame.right - frame.left == BOX_WIDTH,
        frame.bottom - frame.top == BOX_HEIGHT,
        client.right - frame.right == PADDING,
        frame.top - client.top == PADDING,
{
    let left = client.right - BOX_WIDTH - PADDING;
    let top = client.top + PADDING;
    Rect { left, top, right: left + BOX_WIDTH, bottom: top + BOX_HEIGHT }
}

/// The extended style of the indicator's window: layered, so that the
/// colour key applies; transparent to the mouse; topmost; and a tool
/// window.
pub fn overlay_ex_style() -> (style: u32)
    ensures
        style == 0x0008_00A8,
        style & WS_EX_LAYERED == WS_EX_LAYERED,
        style & WS_EX_TRANSPARENT == WS_EX_TRANSPARENT,
        style & WS_EX_TOPMOST == WS_EX_TOPMOST,
        style & WS_EX_TOOLWINDOW == WS_EX_TOOLWINDOW,
{
    let style = WS_EX_LAYERED | WS_EX_TRANSPARENT | WS_EX_TOPMOST | WS_EX_TOOLWINDOW;
    assert(0x0008_0000u32 | 0x20u32 | 0x8u32 | 0x80u32 == 0x0008_00A8u32) by (bit_vector);
    assert(0x0008_00A8u32 & 0x0008_0000u32 == 0x0008_0000u32) by (bit_vector);
    assert(0x0008_00A8u32 & 0x20u32 == 0x20u32) by (bit_vector);
    assert(0x0008_00A8u32 & 0x8u32 == 0x8u32) by (bit_vector);
    assert(0x0008_00A8u32 & 0x80u32 == 0x80u32) by (bit_vector);
    style
}

/// What the indicator's window does about a message.
#[derive(Clone, Copy, Debug, PartialEq, Eq, Structural)]
pub enum WindowResponse {
    /// Answer a hit test with "transparent": the window takes no clicks.
    PassClickThrough,
    /// Make the colour key transparent, once, at creation.
    InstallColorKey,
    /// Claim the background as erased, so that it is not cleared between
    /// paints and does not flicker.
    SkipErase,
    /// Paint the indicator.
    Paint,
    /// Ask the message loop to end.
    PostQuit,
    /// Leave the message to the system's default handling.
    Default,
}

/// The response to each window message.
pub open spec fn spec_window_response(message: u32) -> WindowResponse {
    if message == WM_NCHITTEST {
        WindowResponse::PassClickThrough
    } else if message == WM_CREATE {
        WindowResponse::InstallColorKey
    } else if message == WM_ERASEBKGND {
        WindowResponse::SkipErase
    } else if message == WM_PAINT {
        WindowResponse::Paint
    } else if message == WM_DESTROY {
        WindowResponse::PostQuit
    } else {
        WindowResponse::Default
    }
}

/// Decides what the indicator's window does about `message`.
#[verifier::when_used_as_spec(spec_window_response)]
pub fn window_response(message: u32) -> (response: WindowResponse)
    ensures
        response == spec_window_response(message),
{
    if message == WM_NCHITTEST {
        WindowResponse::PassClickThrough
    } else if message == WM_CREATE {
        WindowResponse::InstallColorKey
    } else if message == WM_ERASEBKGND {
        WindowResponse::SkipErase
    } else if message == WM_PAINT {
        WindowResponse::Paint
    } else if message == WM_DESTROY {
        WindowResponse::PostQuit
    } else {
        WindowResponse::Default
    }
}

impl WindowResponse {
    /// The value the window procedure hands back for this response, or
    /// `None` where the default handling provides it.
    pub open spec fn spec_result(&self) -> Option<isize> {
        match *self {
            WindowResponse::PassClickThrough => Some(HTTRANSPARENT),
            WindowResponse::InstallColorKey => Some(0isize),
            WindowResponse::SkipErase => Some(1isize),
            WindowResponse::Paint => Some(0isize),
            WindowResponse::PostQuit => Some(0isize),
            WindowResponse::Default => None,
        }
    }

    /// The value the window procedure hands back for this response:
    /// "transparent" for a hit test, one for a skipped erase, zero for what
    /// the window handles itself, and `None` where the default handling
    /// provides the value.
    #[verifier::when_used_as_spec(spec_result)]
    pub fn result(&self) -> (result: Option<isize>)
        ensures
            result == self.spec_result(),
            result is None <==> *self == WindowResponse::Default,
    {
        match *self {
            WindowResponse::PassClickThrough => Some(HTTRANSPARENT),
            WindowResponse::InstallColorKey => Some(0),
            WindowResponse::SkipErase => Some(1),
            WindowResponse::Paint => Some(0),
            WindowResponse::PostQuit => Some(0),
            WindowResponse::Default => None,
        }
    }
}

/// Whether the message loop goes on after taking `message` from the queue:
/// it stops at the quit message and dispatches every other.
pub fn keeps_running(message: u32) -> (running: bool)
    ensures
        running == (message != WM_QUIT),
{
    message != WM_QUIT
}

/// The engagement to show given what could be read of the shared flag:
/// its value, or "off" where there is no flag to read.
pub fn engagement_or_off(flag: Option<bool>) -> (engaged: bool)
    ensures
        engaged == (flag == Some(true)),
{
    match flag {
        Some(value) => value,
        None => false,
    }
}

/// The engagement that the indicator last showed, kept by the message loop
/// to repaint only when the engagement changes.
pub struct Indicator {
    shown: bool,
}

impl View for Indicator {
    type V = bool;

    closed spec fn view(&self) -> bool {
        self.shown
    }
}

impl Indicator {
    /// An indicator that shows `engaged`.
    pub fn new(engaged: bool) -> (indicator: Indicator)
        ensures
            indicator@ == engaged,
    {
        Indicator { shown: engaged }
    }

    /// The engagement that the indicator shows.
    pub fn shown(&self) -> (engaged: bool)
        ensures
            engaged == self@,
    {
        self.shown
    }

    /// Takes note of the current engagement and says whether the window
    /// has to be repainted: exactly when it differs from what is shown.
    /// Afterwards the indicator shows `engaged`.
    pub fn observe(&mut self, engaged: bool) -> (repaint: bool)
        ensures
            repaint == (engaged != old(self)@),
            final(self)@ == engaged,
    {
        let repaint = engaged != self.shown;
        self.shown = engaged;
        repaint
    }
}

} // verus!
