use vstd::prelude::*;

use crate::text::{same_text, to_unicode_lower, unicode_lower};

verus! {

/// The value an unticked checkbox stands for.
pub fn false_fn() -> (r: bool)
    ensures
        !r,
{
    false
}

/// The value of a checkbox field already in lower case: `on` and `true`
/// tick it, `off` and `false` untick it, anything else is no checkbox value.
pub open spec fn checkbox_of_lower(lower: Seq<char>) -> Option<bool> {
    if lower == "on"@ || lower == "true"@ {
        Some(true)
    } else if lower == "off"@ || lower == "false"@ {
        Some(false)
    } else {
        None
    }
}

/// Reads a checkbox field that is already in lower case.
pub fn checkbox_from_lower(lower: &str) -> (r: Option<bool>)
    ensures
        r == checkbox_of_lower(lower@),
{
    if same_text(lower, "on") || same_text(lower, "true") {
        Some(true)
    } else if same_text(lower, "off") || same_text(lower, "false") {
        Some(false)
    } else {
        None
    }
}

/// Reads a checkbox field in any letter case.
pub fn checkbox_value(value: &str) -> (r: Option<bool>)
    ensures
        r == checkbox_of_lower(unicode_lower(value@)),
{
    let lower = to_unicode_lower(value);
    checkbox_from_lower(lower.as_str())
}

} // verus!
