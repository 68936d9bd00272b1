//! The face-swap microservice's form fields.

use vstd::prelude::*;

verus! {

/// The value of the `restore` form field: `true` or `false`.
pub fn restore_field(restore: bool) -> (r: &'static str)
    ensures
        r@ == if restore {
            "true"@
        } else {
            "false"@
        },
{
    if restore {
        "true"
    } else {
        "false"
    }
}

} // verus!
