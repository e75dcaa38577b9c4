//! Compact, sortable 64-bit identifiers ("snowflakes") that pack a
//! timestamp offset, a worker id, a process id and a per-process increment
//! into one unsigned integer, together with a stateful generator that mints
//! a stream of such identifiers for one (worker, process) pair.

use vstd::prelude::*;

pub mod generator;
pub mod snowflake;
pub mod text;

pub use crate::generator::SnowflakeGenerator;
pub use crate::snowflake::Snowflake;
pub use crate::text::ParseError;

verus! {

/// Default epoch: the zero point of the packed timestamp field, in
/// milliseconds since the Unix epoch.
pub const AIRDASH_EPOCH: u64 = 1420070400000;

/// Largest worker id that survives packing unchanged (5-bit field).
pub const WORKER_MAX: u8 = 31;

/// Largest process id that survives packing unchanged (5-bit field).
pub const PROCESS_MAX: u8 = 31;

/// Largest increment that survives packing unchanged (12-bit field).
pub const INCREMENT_MAX: u16 = 4095;

/// Published largest timestamp offset, in milliseconds since the epoch.
pub const TIMESTAMP_MAX: u64 = 0x1FFFFFFFFFF;

} // verus!
