//! The Raspberry Pi 3.

use vstd::prelude::*;

verus! {

/// The board's name, for people to read.
pub fn board_name() -> (name: &'static str)
    ensures
        name@ == "Raspberry Pi 3"@,
{
    "Raspberry Pi 3"
}

} // verus!
