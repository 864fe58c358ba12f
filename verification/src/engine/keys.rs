//! The named keys `press` supports, with their CDP key/code and Windows
//! virtual-key code.

use vstd::prelude::*;
use crate::text::str_eq;

verus! {

/// How one named key is dispatched.
pub struct KeySpec {
    pub key: &'static str,
    pub code: &'static str,
    pub windows_virtual_key_code: i64,
}

/// The key table: each supported name with its virtual-key code.
pub open spec fn key_code(name: Seq<char>) -> Option<i64> {
    if name == "Enter"@ {
        Some(13i64)
    } else if name == "Tab"@ {
        Some(9i64)
    } else if name == "Escape"@ {
        Some(27i64)
    } else if name == "ArrowDown"@ {
        Some(40i64)
    } else if name == "ArrowUp"@ {
        Some(38i64)
    } else if name == "Backspace"@ {
        Some(8i64)
    } else {
        None
    }
}

/// Looks up a named key. Its `key` and `code` are the name itself.
pub fn lookup(name: &str) -> (r: Option<KeySpec>)
    ensures
        r is None <==> key_code(name@) is None,
        r matches Some(spec) ==> {
            &&& spec.key@ == name@
            &&& spec.code@ == name@
            &&& key_code(name@) == Some(spec.windows_virtual_key_code)
        },
{
    if str_eq(name, "Enter") {
        Some(KeySpec { key: "Enter", code: "Enter", windows_virtual_key_code: 13 })
    } else if str_eq(name, "Tab") {
        Some(KeySpec { key: "Tab", code: "Tab", windows_virtual_key_code: 9 })
    } else if str_eq(name, "Escape") {
        Some(KeySpec { key: "Escape", code: "Escape", windows_virtual_key_code: 27 })
    } else if str_eq(name, "ArrowDown") {
        Some(KeySpec { key: "ArrowDown", code: "ArrowDown", windows_virtual_key_code: 40 })
    } else if str_eq(name, "ArrowUp") {
        Some(KeySpec { key: "ArrowUp", code: "ArrowUp", windows_virtual_key_code: 38 })
    } else if str_eq(name, "Backspace") {
        Some(KeySpec { key: "Backspace", code: "Backspace", windows_virtual_key_code: 8 })
    } else {
        None
    }
}

} // verus!
