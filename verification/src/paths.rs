//! Filesystem paths as text, joined the way `Path::join` joins them on the
//! platform whose conventions `PathStyle` names.

use vstd::prelude::*;
use crate::text::chars_of;

verus! {

/// Which platform's path conventions apply.
#[derive(Debug, Clone, Copy, PartialEq, Eq, Structural)]
pub enum PathStyle {
    /// `/` separates components; a component starting with `/` is absolute.
    Unix,
    /// `\` and `/` separate components; `X:` is a drive prefix.
    Windows,
}

/// Whether `c` separates path components.
pub open spec fn is_sep(c: char, style: PathStyle) -> bool {
    c == '/' || (style == PathStyle::Windows && c == '\\')
}

/// The length of a drive prefix (`C:`) at the start of `s`: 2 or 0.
pub open spec fn drive_len(s: Seq<char>, style: PathStyle) -> int {
    if style == PathStyle::Windows && s.len() >= 2 && s[1] == ':'
        && (('a' <= s[0] && s[0] <= 'z') || ('A' <= s[0] && s[0] <= 'Z')) {
        2
    } else {
        0
    }
}

/// The separator written between two components.
pub open spec fn main_sep(style: PathStyle) -> char {
    if style == PathStyle::Windows { '\\' } else { '/' }
}

/// `base` joined with `seg`: a `seg` with a drive prefix, or (on Unix) one
/// starting with `/`, replaces `base`; on Windows a `seg` starting with a
/// separator keeps only `base`'s drive; otherwise `seg` is appended after
/// one separator, unless `base` is empty, already ends with a separator, or
/// is a bare drive.
pub open spec fn join(base: Seq<char>, seg: Seq<char>, style: PathStyle) -> Seq<char> {
    if drive_len(seg, style) > 0 {
        seg
    } else if seg.len() > 0 && is_sep(seg[0], style) {
        if style == PathStyle::Windows {
            base.take(drive_len(base, style)) + seg
        } else {
            seg
        }
    } else if base.len() == 0 || is_sep(base.last(), style)
        || (drive_len(base, style) == 2 && base.len() == 2) {
        base + seg
    } else {
        base + seq![main_sep(style)] + seg
    }
}

fn drive_prefix_len(v: &Vec<char>, style: &PathStyle) -> (r: usize)
    ensures
        r == drive_len(v@, *style),
{
    match style {
        PathStyle::Windows => {
            if v.len() >= 2 && v[1] == ':' && (('a' <= v[0] && v[0] <= 'z') || ('A' <= v[0] && v[0] <= 'Z')) {
                2
            } else {
                0
            }
        },
        PathStyle::Unix => 0,
    }
}

fn sep_char(c: char, style: &PathStyle) -> (r: bool)
    ensures
        r == is_sep(c, *style),
{
    c == '/' || (matches!(style, PathStyle::Windows) && c == '\\')
}

/// Joins `seg` onto `base`.
pub fn join_path(base: &str, seg: &str, style: &PathStyle) -> (r: String)
    ensures
        r@ == join(base@, seg@, *style),
{
    let bv = chars_of(base);
    let sv = chars_of(seg);
    if drive_prefix_len(&sv, style) > 0 {
        return seg.to_owned();
    }
    if sv.len() > 0 && sep_char(sv[0], style) {
        match style {
            PathStyle::Windows => {
                let d = drive_prefix_len(&bv, style);
                let mut r = crate::text::string_of(&bv, 0, d);
                r.append(seg);
                assert(bv@.subrange(0, d as int) =~= bv@.take(d as int));
                return r;
            },
            PathStyle::Unix => {
                return seg.to_owned();
            },
        }
    }
    let mut r = base.to_owned();
    if bv.len() == 0 || sep_char(bv[bv.len() - 1], style) || (drive_prefix_len(&bv, style) == 2 && bv.len() == 2) {
        r.append(seg);
    } else {
        match style {
            PathStyle::Windows => r.append("\\"),
            PathStyle::Unix => r.append("/"),
        }
        r.append(seg);
        assert(r@ =~= base@ + seq![main_sep(*style)] + seg@) by {
            reveal_strlit("\\");
            reveal_strlit("/");
        }
    }
    r
}

} // verus!
