//! Mac OS X specific definitions.

use vstd::prelude::*;

verus! {

/// The name of the operating system this module stands for.
pub fn tos() -> (r: &'static str)
    ensures
        r@ == "macos"@,
{
    "macos"
}

} // verus!
