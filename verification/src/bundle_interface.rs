//! Helpers of the bundle interpreter interface that do not touch the
//! interpreter itself.

use vstd::prelude::*;

verus! {

/// Raised when a bundle function returns `None`.
pub struct NoneException;

/// The text used for an exception's value: its `str()` unless that is
/// empty, then its `repr()`.
pub fn fallback_value_text<'a>(display: &'a str, repr: &'a str) -> (r: &'a str)
    ensures
        r@ == (if display@.len() == 0 {
            repr@
        } else {
            display@
        }),
{
    if display.is_empty() {
        repr
    } else {
        display
    }
}

} // verus!
