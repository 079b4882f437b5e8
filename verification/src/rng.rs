//! The source of random bytes for `CXNN`.
use vstd::prelude::*;

verus! {

/// A random byte from `rand::random::<u8>()`, drawn from the thread-local
/// generator. Nothing is claimed of the value: any byte may come back, and two
/// calls may differ. `rand` panics when the operating system cannot seed the
/// generator, which no `requires` can rule out.
#[verifier::external_body]
pub(crate) fn random_byte() -> u8 {
    rand::random::<u8>()
}

} // verus!
