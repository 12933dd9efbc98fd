//! Durations, which the library passes through to the caller and to timers.
use vstd::prelude::*;

verus! {

/// The duration of `secs` whole seconds, as `std::time::Duration::from_secs` makes it.
pub uninterp spec fn duration_of_secs(secs: u64) -> std::time::Duration;

/// `std::time::Duration::from_secs`: the duration of `secs` seconds, a function of `secs` alone.
#[verifier::external_body]
pub(crate) fn duration_from_secs(secs: u64) -> (r: std::time::Duration)
    ensures
        r == duration_of_secs(secs),
{
    std::time::Duration::from_secs(secs)
}

/// The whole seconds of a duration (`std::time::Duration::as_secs`).
pub uninterp spec fn duration_secs_of(d: std::time::Duration) -> u64;

/// `std::time::Duration::as_secs`: the whole seconds of `d`; a duration made from whole seconds
/// gives them back.
#[verifier::external_body]
pub(crate) fn duration_as_secs(d: &std::time::Duration) -> (r: u64)
    ensures
        r == duration_secs_of(*d),
        forall|s: u64| *d == duration_of_secs(s) ==> r == s,
{
    d.as_secs()
}

} // verus!
