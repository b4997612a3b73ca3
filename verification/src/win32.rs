//! Windows-specific definitions.

use vstd::prelude::*;

verus! {

/// The name of the operating system this module stands for.
pub fn tos() -> (r: &'static str)
    ensures
        r@ == "win32"@,
{
    "win32"
}

} // verus!
