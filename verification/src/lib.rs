//! Estimate the block number a chain will have reached at a future Unix
//! timestamp: take the current height, divide the seconds until the target
//! by a fixed average block time, and add the two. The arithmetic and the
//! command-line extraction are verified; reading the clock is the one
//! trusted call, and network access stays with the caller.

pub mod args;
pub mod errors;
pub mod projector;

pub use args::extract_timestamp;
pub use args::parse_timestamp;
pub use errors::ArgError;
pub use errors::ProjectionError;
pub use projector::future_block_number;
pub use projector::project_block_number;
pub use projector::seconds_between;
pub use projector::seconds_from_now;
pub use projector::seconds_to_block;
pub use projector::AVERAGE_BLOCK_SECONDS;
