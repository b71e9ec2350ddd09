//! The mode of the player and the time base of playback.

use vstd::prelude::*;

verus! {

/// The mode of the player as every worker sees it.
#[derive(Debug, Copy, Clone, PartialEq, Eq, Structural)]
pub enum PlayerStates {
    STOPPED,
    PLAYING,
    PAUSED,
}

/// Length of one tick in milliseconds: how long a paused session sleeps
/// before it looks at the mode again.
pub const TICK_MILLIS: u64 = 250;

/// Nanoseconds in one millisecond.
pub const NANOS_PER_MILLI: u64 = 1_000_000;

/// Nanoseconds in one second.
pub const NANOS_PER_SEC: u64 = 1_000_000_000;

/// Length of one tick in nanoseconds, the unit in which progress is kept.
pub const TICK_NANOS: u64 = 250_000_000;

} // verus!
