use vstd::prelude::*;
use vstd::string::StringExecFns;

verus! {

/// Why the command line could not supply a target timestamp.
#[derive(Clone, Copy, Debug, PartialEq, Eq, Structural)]
pub enum ArgError {
    /// The timestamp option is missing, or the arguments are not of the
    /// form `-t <value>` / `--timestamp <value>`.
    Usage,
    /// The option's value is not a decimal integer that fits in `usize`.
    InvalidTimestamp,
}

/// Why a block-number projection could not be carried out.
#[derive(Clone, Copy, Debug, PartialEq, Eq, Structural)]
pub enum ProjectionError {
    /// The target timestamp precedes the reference time: projections into
    /// the past are rejected rather than left to underflow.
    TimestampInPast,
    /// The second delta does not fit in `usize` (possible only when the
    /// reference time lies before the Unix epoch).
    DeltaOverflow,
    /// The projected block number would exceed `usize::MAX`.
    BlockNumberOverflow,
}

impl ArgError {
    /// A human-readable description, for the caller to print on failure.
    pub fn message(&self) -> (r: String)
        ensures
            *self == ArgError::Usage ==> r@ == "usage: pass -t or --timestamp followed by a unix timestamp"@,
            *self == ArgError::InvalidTimestamp ==> r@ == "the timestamp must be a decimal integer no larger than usize::MAX"@,
    {
        match self {
            ArgError::Usage => String::from_str(
                "usage: pass -t or --timestamp followed by a unix timestamp",
            ),
            ArgError::InvalidTimestamp => String::from_str(
                "the timestamp must be a decimal integer no larger than usize::MAX",
            ),
        }
    }
}

impl ProjectionError {
    /// A human-readable description, for the caller to print on failure.
    pub fn message(&self) -> (r: String)
        ensures
            *self == ProjectionError::TimestampInPast ==> r@ == "the target timestamp is in the past"@,
            *self == ProjectionError::DeltaOverflow ==> r@ == "the time until the target timestamp does not fit in a machine word"@,
            *self == ProjectionError::BlockNumberOverflow ==> r@ == "the projected block number does not fit in a machine word"@,
    {
        match self {
            ProjectionError::TimestampInPast => String::from_str(
                "the target timestamp is in the past",
            ),
            ProjectionError::DeltaOverflow => String::from_str(
                "the time until the target timestamp does not fit in a machine word",
            ),
            ProjectionError::BlockNumberOverflow => String::from_str(
                "the projected block number does not fit in a machine word",
            ),
        }
    }
}

} // verus!
