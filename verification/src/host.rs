//! Decisions taken at the host's C boundary: the window the host opens, which
//! pad port is wired, and the integer flags returned to the C++ core.

use vstd::prelude::*;

verus! {

/// Window title used when the caller passes none.
pub open spec fn default_title() -> Seq<char> {
    "PS2 Game"@
}

/// The window title: the caller's, or `PS2 Game` when it passes none.
pub fn window_title(title: Option<String>) -> (r: String)
    ensures
        r@ == (match title {
            Some(t) => t@,
            None => "PS2 Game"@,
        }),
        title is None ==> r@ == default_title(),
{
    match title {
        Some(t) => t,
        None => String::from_str("PS2 Game"),
    }
}

/// The window size: each side at least one pixel.
pub fn window_size(w: u32, h: u32) -> (r: (u32, u32))
    ensures
        r.0 == (if w == 0 { 1 } else { w }),
        r.1 == (if h == 0 { 1 } else { h }),
{
    (if w == 0 { 1 } else { w }, if h == 0 { 1 } else { h })
}

/// Whether a pad is connected at (port, slot): only port 0, slot 0 is wired.
pub fn pad_connected(port: i32, slot: i32) -> (r: bool)
    ensures
        r == (port == 0 && slot == 0),
{
    port == 0 && slot == 0
}

/// A C truth value: 1 for `true`, 0 for `false`.
pub fn c_flag(b: bool) -> (r: i32)
    ensures
        r == (if b { 1i32 } else { 0i32 }),
{
    if b {
        1
    } else {
        0
    }
}

} // verus!
