//! The text fields of the module forms.
use vstd::prelude::*;

verus! {

/// The value a text field sets: nothing when the field is empty, its text
/// otherwise.
pub fn text_value(value: &str) -> (r: Option<&str>)
    ensures
        match r {
            None => value@.len() == 0,
            Some(s) => value@.len() > 0 && s@ == value@,
        },
{
    if value.is_empty() {
        None
    } else {
        Some(value)
    }
}

} // verus!
