use vstd::prelude::*;

use crate::errors::ProjectionError;

verus! {

/// Assumed average time between two consecutive blocks, in seconds.
pub const AVERAGE_BLOCK_SECONDS: usize = 12;

/// Relies on `chrono::Utc::now` and `chrono::DateTime::timestamp`: the wall
/// clock, read once, as whole (non-leap) seconds since the Unix epoch.
/// `Utc::now` panics rather than report a time before the epoch, so a value
/// that does come back is non-negative; nothing more is assumed of it.
#[verifier::external_body]
fn unix_time_now() -> (r: i64)
    ensures
        r >= 0,
{
    chrono::Utc::now().timestamp()
}

/// The number of seconds from `now` to `timestamp`, or the error when the
/// target lies in the past or the delta does not fit in `usize`.
pub open spec fn spec_seconds_between(timestamp: usize, now: i64) -> Result<usize, ProjectionError> {
    if now > timestamp {
        Err(ProjectionError::TimestampInPast)
    } else if timestamp - now > usize::MAX {
        Err(ProjectionError::DeltaOverflow)
    } else {
        Ok((timestamp - now) as usize)
    }
}

/// The projected block number: the height grows by one block for every
/// whole `AVERAGE_BLOCK_SECONDS` seconds between `now` and `timestamp`.
pub open spec fn spec_projection(height: usize, timestamp: usize, now: i64) -> Result<
    usize,
    ProjectionError,
> {
    match spec_seconds_between(timestamp, now) {
        Err(e) => Err(e),
        Ok(delta) => {
            if height + delta / AVERAGE_BLOCK_SECONDS > usize::MAX {
                Err(ProjectionError::BlockNumberOverflow)
            } else {
                Ok((height + delta / AVERAGE_BLOCK_SECONDS) as usize)
            }
        },
    }
}

/// Seconds from the reference time `now` to the target `timestamp`.
/// Targets in the past are rejected; a delta beyond `usize::MAX` (possible
/// only for a reference time before the epoch) is rejected as well.
pub fn seconds_between(timestamp: usize, now: i64) -> (r: Result<usize, ProjectionError>)
    ensures
        r == spec_seconds_between(timestamp, now),
{
    let t: i128 = timestamp as i128;
    let n: i128 = now as i128;
    if n > t {
        Err(ProjectionError::TimestampInPast)
    } else {
        let d: i128 = t - n;
        if d > usize::MAX as i128 {
            Err(ProjectionError::DeltaOverflow)
        } else {
            Ok(d as usize)
        }
    }
}

/// Seconds from the current wall-clock time to the target `timestamp`.
/// The clock is read once; the result is exactly the delta against that
/// one reading.
pub fn seconds_from_now(timestamp: usize) -> (r: Result<usize, ProjectionError>)
    ensures
        exists|now: i64| 0 <= now && r == spec_seconds_between(timestamp, now),
{
    let now = unix_time_now();
    let r = seconds_between(timestamp, now);
    proof {
        assert(exists|n: i64| 0 <= n && r == spec_seconds_between(timestamp, n)) by {
            assert(0 <= now && r == spec_seconds_between(timestamp, now));
        }
    }
    r
}

/// Convert a whole-second delta into a block-count offset, assuming one
/// block every `AVERAGE_BLOCK_SECONDS` seconds (floor division).
pub fn seconds_to_block(seconds: usize) -> (blocks: usize)
    ensures
        blocks == seconds / AVERAGE_BLOCK_SECONDS,
{
    seconds / AVERAGE_BLOCK_SECONDS
}

/// Project the block number at `timestamp`, given the chain height at the
/// reference time `now`: exactly `height + (timestamp - now) / 12`, or the
/// error that `spec_projection` assigns to these inputs.
pub fn project_block_number(height: usize, timestamp: usize, now: i64) -> (r: Result<
    usize,
    ProjectionError,
>)
    ensures
        r == spec_projection(height, timestamp, now),
{
    let delta = match seconds_between(timestamp, now) {
        Ok(d) => d,
        Err(e) => {
            return Err(e);
        },
    };
    let blocks = seconds_to_block(delta);
    if height > usize::MAX - blocks {
        Err(ProjectionError::BlockNumberOverflow)
    } else {
        Ok(height + blocks)
    }
}

/// Project the block number at `timestamp`, given the chain height now.
/// The wall clock is read once; the result is exactly the projection
/// against that one reading.
pub fn future_block_number(height: usize, timestamp: usize) -> (r: Result<usize, ProjectionError>)
    ensures
        exists|now: i64| 0 <= now && r == spec_projection(height, timestamp, now),
{
    let now = unix_time_now();
    let r = project_block_number(height, timestamp, now);
    proof {
        assert(exists|n: i64| 0 <= n && r == spec_projection(height, timestamp, n)) by {
            assert(0 <= now && r == spec_projection(height, timestamp, now));
        }
    }
    r
}

/// For every target at or after the reference time whose delta fits the
/// machine, the computed delta is exactly `timestamp - now`.
pub proof fn lemma_seconds_from_now_exact(timestamp: usize, now: i64)
    requires
        now <= timestamp,
        timestamp - now <= usize::MAX,
    ensures
        spec_seconds_between(timestamp, now) == Ok::<usize, ProjectionError>(
            ((timestamp - now) as usize),
        ),
{
}

} // verus!
