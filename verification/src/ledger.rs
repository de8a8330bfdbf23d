//! Counting what a driver did, for the laws of the protocols.

use vstd::prelude::*;

verus! {

/// `n`, and one more where `counted`.
pub open spec fn tally(n: nat, counted: bool) -> nat {
    if counted {
        n + 1
    } else {
        n
    }
}

} // verus!
