//! Settings of the desktop environment.

use vstd::prelude::*;
use crate::strings::{ascii_lowercase_of, same_text, to_ascii_lowercase, trimmed_of};

verus! {

/// What a wish for the desktop portal comes to, the wish taken in lower
/// case without the white space around it: `0` for `0`, `false`, `no` and
/// `off`, and `1` for anything else.
pub open spec fn portal_value(wish: Seq<char>) -> Seq<char> {
    let plain = ascii_lowercase_of(trimmed_of(wish));
    if plain == "0"@ || plain == "false"@ || plain == "no"@ || plain == "off"@ {
        "0"@
    } else {
        "1"@
    }
}

/// The value to give the switch that makes file dialogs go through the
/// desktop portal. A value that is already set is left alone (`None`);
/// otherwise the switch follows the wish, and is on where there is none.
pub fn portal_setting(already_set: bool, wish: Option<&str>) -> (value: Option<&'static str>)
    ensures
        match value {
            Some(v) => !already_set && v@ == match wish {
                Some(w) => portal_value(w@),
                None => "1"@,
            },
            None => already_set,
        },
{
    if already_set {
        return None;
    }
    match wish {
        Some(w) => {
            let plain = to_ascii_lowercase(w.trim());
            let p = plain.as_str();
            if same_text(p, "0") || same_text(p, "false") || same_text(p, "no") || same_text(
                p,
                "off",
            ) {
                Some("0")
            } else {
                Some("1")
            }
        },
        None => Some("1"),
    }
}

} // verus!
