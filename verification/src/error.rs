//! The error of taking an owned value for a borrowed one.

use vstd::prelude::*;
use vstd::string::StringExecFns;

verus! {

/// The error of asking a clone-on-write value that owns its data for the
/// view it has borrowed.
///
/// An owned value cannot hand out a view that outlives it. Its view can
/// always be had for a shorter time, with `as_ref`.
#[derive(PartialEq, Eq, Clone, Copy, Debug)]
pub struct OwnedVariantError;

impl OwnedVariantError {
    /// What the error has to say.
    pub fn to_string(&self) -> (r: String)
        ensures
            r@ == "Owned variant of beef::Cow cannot be converted to a borrowed slice, try using `as_ref()` instead."@,
    {
        String::from_str(
            "Owned variant of beef::Cow cannot be converted to a borrowed slice, try using `as_ref()` instead.",
        )
    }
}

} // verus!
