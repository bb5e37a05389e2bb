//! The trusted interface to the `rand` crate, the nondeterministic source
//! behind the random seeding pattern.

use vstd::prelude::*;

verus! {

/// Relies on rand::random::<bool>: a fair draw from a nondeterministic
/// source, true with probability one half. Nothing is promised of the
/// value: every caller must be correct for either outcome.
#[verifier::external_body]
pub(crate) fn random_bool() -> bool {
    rand::random::<bool>()
}

} // verus!
