//! The source of randomness for a fresh world.

use vstd::prelude::*;

verus! {

/// One coin toss, drawn by `rand::random::<bool>()` from the generator of the
/// current thread.
///
/// Nothing is claimed of the outcome: either state may come back, and two
/// tosses need not agree. The call takes no argument; it fails only where
/// the operating system gives the generator no seed.
#[verifier::external_body]
pub(crate) fn random_state() -> (state: bool) {
    rand::random()
}

} // verus!
