//! The operating system's random source.

use vstd::prelude::*;
use rand::rand_core::OsError;
use rand::rngs::OsRng;
use rand::TryRngCore;

verus! {

/// The error of `rand::rngs::OsRng`, which is `rand_core::OsError`. It is
/// carried from the call to the place that turns it into an error of this
/// crate, and never read.
#[verifier::external_type_specification]
#[verifier::external_body]
pub struct ExOsError(OsError);

/// Calls `try_next_u64` of `rand::rngs::OsRng`: 64 bits from the operating
/// system's random source, or the source's error. Nothing is claimed of the
/// value that comes back, nor of when the source fails.
#[verifier::external_body]
pub(crate) fn os_random_u64() -> (r: Result<u64, OsError>) {
    OsRng.try_next_u64()
}

} // verus!
