//! The library's one source of chance.

use vstd::prelude::*;

verus! {

/// Calls `rand::random::<u32>()`, which samples the thread-local generator
/// uniformly over all of `u32`. Nothing is claimed of the value returned:
/// every caller is verified for whatever comes back.
///
/// The call panics if the operating system gives the generator no entropy:
/// at its first use in a thread, when the generator is seeded, and at any
/// later call that finds the generator due for reseeding. No argument
/// decides this, so no precondition can rule it out.
#[verifier::external_body]
pub(crate) fn draw() -> (r: u32) {
    rand::random::<u32>()
}

} // verus!
