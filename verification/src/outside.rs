//! The items of this library that are believed, not proved: the calls into
//! `rand`, `chrono` and the parts of `std` that `vstd` says nothing of.

use vstd::prelude::*;

verus! {

/// `std::time::Instant`, carried through as an opaque value.
#[verifier::external_type_specification]
#[verifier::external_body]
pub struct ExInstant(std::time::Instant);

/// `std::time::Instant::now` reads the monotonic clock. Nothing is claimed
/// of the reading.
pub assume_specification[ std::time::Instant::now ]() -> (now: std::time::Instant);

/// `std::time::Instant::elapsed` gives the time that has passed since the
/// instant was taken. Nothing is claimed of the reading.
pub assume_specification[ std::time::Instant::elapsed ](start: &std::time::Instant) -> (
    elapsed: std::time::Duration
);

/// `std::time::Duration::as_millis` gives the whole milliseconds of a
/// duration. A duration is opaque here, so nothing is claimed of the number.
pub assume_specification[ std::time::Duration::as_millis ](duration: &std::time::Duration) -> (
    millis: u128
);

/// What `str::to_uppercase` returns for a string with the given characters.
pub uninterp spec fn uppercase_of(text: Seq<char>) -> Seq<char>;

/// `str::to_uppercase` maps a string to its upper-case equivalent under the
/// Unicode rules. The result depends on the characters alone, and is known
/// here only by its name.
pub assume_specification[ str::to_uppercase ](text: &str) -> (upper: String)
    ensures
        upper@ == uppercase_of(text@),
;

/// `rand::Rng::gen_range` on the thread-local generator of `rand::thread_rng`,
/// for an inclusive range of `i32`. The generator returns some value within
/// the range; which one is left open. It panics on an empty range, which
/// `requires` excludes, and if the operating system gives the thread's
/// generator no seed, which no argument decides.
#[verifier::external_body]
pub(crate) fn random_in_range(low: i32, high: i32) -> (drawn: i32)
    requires
        low <= high,
    ensures
        low <= drawn <= high,
{
    rand::Rng::gen_range(&mut rand::thread_rng(), low..=high)
}

/// `chrono::Utc::now`, read through `DateTime::timestamp_micros`: the system
/// clock as whole microseconds since the Unix epoch, the resolution at which
/// a timestamp reaches the database. Nothing is claimed of the reading. The
/// call panics where the system clock stands before the Unix epoch.
#[verifier::external_body]
pub(crate) fn utc_now_micros() -> (micros: i64)
{
    chrono::Utc::now().timestamp_micros()
}

} // verus!
