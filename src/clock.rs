use vstd::prelude::*;
use std::time::{Duration, SystemTime, SystemTimeError};

verus! {

#[verifier::external_type_specification]
#[verifier::external_body]
pub struct ExSystemTime(SystemTime);

#[verifier::external_type_specification]
#[verifier::external_body]
pub struct ExSystemTimeError(SystemTimeError);

/// Relies on std's `SystemTime::now`: the current wall-clock time. Nothing is
/// known of the value.
pub assume_specification[ SystemTime::now ]() -> SystemTime;

/// Relies on std's `Duration::as_secs`: the whole seconds of a duration.
/// Nothing is known of the value, the duration being opaque here.
pub assume_specification[ Duration::as_secs ](d: &Duration) -> u64;

/// Relies on std's `SystemTime::duration_since`, measured from the Unix
/// epoch: `Err` when `t` lies before it. Nothing is known of which outcome
/// comes, the time being opaque here.
#[verifier::external_body]
fn since_unix_epoch(t: &SystemTime) -> (r: Result<Duration, SystemTimeError>) {
    t.duration_since(std::time::UNIX_EPOCH)
}

/// Why no id could be made.
#[derive(Debug, Clone, Copy, PartialEq, Eq, Structural)]
pub enum IdError {
    /// The system clock reads a time before the Unix epoch.
    BeforeEpoch,
    /// The store has already issued the largest id there is.
    Exhausted,
}

/// The clock read as whole seconds since the Unix epoch (the part below a
/// second dropped), or `None` when it reads a time before the epoch.
fn read_clock() -> (r: Option<u64>) {
    let now = SystemTime::now();
    match since_unix_epoch(&now) {
        Ok(d) => Some(d.as_secs()),
        Err(_) => None,
    }
}

/// The id for a clock reading: its whole seconds since the Unix epoch; a
/// reading before the epoch gives no id but `BeforeEpoch`.
pub fn id_from_reading(secs_since_epoch: Option<u64>) -> (r: Result<u64, IdError>)
    ensures
        secs_since_epoch matches Some(s) ==> r == Ok::<u64, IdError>(s),
        secs_since_epoch is None ==> r == Err::<u64, IdError>(IdError::BeforeEpoch),
{
    match secs_since_epoch {
        Some(s) => Ok(s),
        None => Err(IdError::BeforeEpoch),
    }
}

/// An id taken from the clock: the whole seconds since the Unix epoch (see
/// `id_from_reading`). Fails with `BeforeEpoch` when the clock reads a time
/// before the epoch; it never fails otherwise.
pub fn generate_id() -> (r: Result<u64, IdError>)
    ensures
        r is Err ==> r == Err::<u64, IdError>(IdError::BeforeEpoch),
{
    id_from_reading(read_clock())
}

} // verus!
