//! Calls into outside crates that the library relies on, each with the
//! contract that it is trusted to meet.

use vstd::prelude::*;

verus! {

/// `rand`'s per-thread generator, carried through the library unopened.
#[verifier::external_type_specification]
#[verifier::external_body]
pub struct ExThreadRng(rand::rngs::ThreadRng);

/// Relies on `rand::rng`: hands out a handle to the thread-local generator.
#[verifier::external_body]
pub(crate) fn thread_rng() -> (r: rand::rngs::ThreadRng) {
    rand::rng()
}

/// Relies on `rand::Rng::random_range` over an inclusive range: the value
/// drawn lies within the bounds (the call panics only on an empty range).
#[verifier::external_body]
pub(crate) fn random_in(rng: &mut rand::rngs::ThreadRng, low: u32, high: u32) -> (r: u32)
    requires
        low <= high,
    ensures
        low <= r <= high,
{
    rand::Rng::random_range(rng, low..=high)
}

/// Relies on `sysinfo::System::uptime`: the seconds since the machine
/// booted, read afresh on each call. Nothing is promised of the value.
#[verifier::external_body]
pub(crate) fn system_uptime() -> (r: u64) {
    sysinfo::System::uptime()
}

/// Relies on `chrono::Utc::now`, read as whole seconds since the Unix epoch
/// by `DateTime::timestamp`. Nothing is promised of the value.
#[verifier::external_body]
pub(crate) fn unix_now() -> (r: i64) {
    chrono::Utc::now().timestamp()
}

} // verus!
