//! The decisions behind real OS-level input on Windows: which of a browser
//! process's windows hosts the page being driven, and which key events a
//! key press or a typed character becomes. Sending them is the caller's
//! part.

use vstd::prelude::*;

verus! {

/// The on-screen bounds CDP reports for the window hosting a page, used to
/// tell a browser process's windows apart.
pub struct WindowHint {
    pub left: i32,
    pub top: i32,
    pub width: i32,
    pub height: i32,
}

/// A native window's rectangle.
pub struct WindowRect {
    pub left: i32,
    pub top: i32,
    pub right: i32,
    pub bottom: i32,
}

/// `|a - b|`.
pub open spec fn abs_diff(a: int, b: int) -> int {
    if a >= b { a - b } else { b - a }
}

/// How far a window's rectangle is from the hint: the summed differences
/// of left, top, width and height.
pub open spec fn spec_rect_distance(r: WindowRect, h: WindowHint) -> int {
    abs_diff(r.left as int, h.left as int) + abs_diff(r.top as int, h.top as int)
        + abs_diff(r.right - r.left, h.width as int) + abs_diff(r.bottom - r.top, h.height as int)
}

fn abs_diff_i64(a: i64, b: i64) -> (r: i64)
    requires
        -0x1_0000_0000 <= a <= 0x1_0000_0000,
        -0x1_0000_0000 <= b <= 0x1_0000_0000,
    ensures
        r == abs_diff(a as int, b as int),
{
    if a >= b { a - b } else { b - a }
}

/// The distance between a window's rectangle and the hint.
pub fn rect_distance(r: &WindowRect, h: &WindowHint) -> (d: i64)
    ensures
        d == spec_rect_distance(*r, *h),
{
    let width = r.right as i64 - r.left as i64;
    let height = r.bottom as i64 - r.top as i64;
    abs_diff_i64(r.left as i64, h.left as i64) + abs_diff_i64(r.top as i64, h.top as i64)
        + abs_diff_i64(width, h.width as i64) + abs_diff_i64(height, h.height as i64)
}

/// Picks the window closest to the hint: the first of those at the least
/// distance; `None` when there is no candidate window.
pub fn closest_window(rects: &Vec<WindowRect>, hint: &WindowHint) -> (r: Option<usize>)
    ensures
        rects.len() == 0 ==> r is None,
        rects.len() > 0 ==> (r matches Some(k) && k < rects.len()
            && forall|j: int| 0 <= j < rects.len() ==> spec_rect_distance(rects@[k as int], *hint) <= spec_rect_distance(#[trigger] rects@[j], *hint)
            && forall|j: int| 0 <= j < k ==> spec_rect_distance(rects@[k as int], *hint) < spec_rect_distance(#[trigger] rects@[j], *hint)),
{
    if rects.len() == 0 {
        return None;
    }
    let mut best: usize = 0;
    let mut best_d = rect_distance(&rects[0], hint);
    let mut i: usize = 1;
    while i < rects.len()
        invariant
            1 <= i <= rects.len(),
            best < i,
            best_d == spec_rect_distance(rects@[best as int], *hint),
            forall|j: int| 0 <= j < i ==> best_d <= spec_rect_distance(#[trigger] rects@[j], *hint),
            forall|j: int| 0 <= j < best ==> best_d < spec_rect_distance(#[trigger] rects@[j], *hint),
        decreases rects.len() - i,
    {
        let d = rect_distance(&rects[i], hint);
        if d < best_d {
            best = i;
            best_d = d;
        }
        i += 1;
    }
    Some(best)
}

/// One keyboard event: a virtual-key code or a UTF-16 unit, down or up.
pub struct KeyInput {
    /// The virtual-key code (for a named key) or UTF-16 code unit (for text).
    pub code: u16,
    /// Whether `code` is a UTF-16 unit rather than a virtual-key code.
    pub unicode: bool,
    pub key_up: bool,
}

/// The events of pressing a named key by its virtual-key code: down, then
/// up.
pub fn press_key(virtual_key_code: u16) -> (r: Vec<KeyInput>)
    ensures
        r.len() == 2,
        r@[0] == (KeyInput { code: virtual_key_code, unicode: false, key_up: false }),
        r@[1] == (KeyInput { code: virtual_key_code, unicode: false, key_up: true }),
{
    let mut r: Vec<KeyInput> = Vec::new();
    r.push(KeyInput { code: virtual_key_code, unicode: false, key_up: false });
    r.push(KeyInput { code: virtual_key_code, unicode: false, key_up: true });
    r
}

/// The UTF-16 code units of a character: itself below U+10000, else its
/// surrogate pair.
pub open spec fn utf16_units(c: char) -> Seq<u16> {
    let v = c as u32;
    if v < 0x10000 {
        seq![v as u16]
    } else {
        seq![(0xD800 + (v - 0x10000) / 0x400) as u16, (0xDC00 + (v - 0x10000) % 0x400) as u16]
    }
}

/// The events of typing one character: each of its UTF-16 units pressed
/// and released, back to back.
pub fn char_inputs(c: char) -> (r: Vec<KeyInput>)
    ensures
        r.len() == 2 * utf16_units(c).len(),
        forall|i: int| 0 <= i < utf16_units(c).len() ==> {
            &&& #[trigger] r@[2 * i] == (KeyInput { code: utf16_units(c)[i], unicode: true, key_up: false })
            &&& r@[2 * i + 1] == (KeyInput { code: utf16_units(c)[i], unicode: true, key_up: true })
        },
{
    let v = c as u32;
    let mut r: Vec<KeyInput> = Vec::new();
    if v < 0x10000 {
        let u = v as u16;
        r.push(KeyInput { code: u, unicode: true, key_up: false });
        r.push(KeyInput { code: u, unicode: true, key_up: true });
    } else {
        proof {
            vstd::utf8::char_is_scalar(c);
        }
        let hi = (0xD800 + (v - 0x10000) / 0x400) as u16;
        let lo = (0xDC00 + (v - 0x10000) % 0x400) as u16;
        r.push(KeyInput { code: hi, unicode: true, key_up: false });
        r.push(KeyInput { code: hi, unicode: true, key_up: true });
        r.push(KeyInput { code: lo, unicode: true, key_up: false });
        r.push(KeyInput { code: lo, unicode: true, key_up: true });
        assert(r@[2 * 1int] == r@[2int]);
    }
    r
}

} // verus!
