//! Session parameters and the fixed-rate pacing of ticks.
use vstd::prelude::*;

verus! {

/// Nanoseconds in a second.
pub const SECOND_NS: u64 = 1_000_000_000;

/// The parameters of a session.
#[derive(Clone, Copy, Debug, PartialEq, Eq, Structural)]
pub struct Args {
    /// How long a game should last for, in seconds.
    pub round_length: u64,
    /// How many times the game should update per second.
    pub tick_rate: u32,
}

impl Args {
    /// How long one tick should last, in nanoseconds: a second shared out
    /// among `tick_rate` ticks. There is no such length for a rate of zero.
    pub fn tick_length_ns(&self) -> (r: Option<u64>)
        ensures
            r == (if self.tick_rate == 0 {
                None::<u64>
            } else {
                Some((SECOND_NS / self.tick_rate as u64) as u64)
            }),
    {
        if self.tick_rate == 0 {
            None
        } else {
            Some(SECOND_NS / self.tick_rate as u64)
        }
    }

    /// How long a round lasts, in milliseconds, held at the largest `u64`.
    pub fn round_length_ms(&self) -> (r: u64)
        ensures
            r == (if self.round_length * 1000 > u64::MAX {
                u64::MAX
            } else {
                (self.round_length * 1000) as u64
            }),
    {
        if self.round_length > u64::MAX / 1000 {
            u64::MAX
        } else {
            self.round_length * 1000
        }
    }
}

/// How long to wait after a tick that took `spent` of its `budget`: the rest
/// of the budget, or nothing at all after an overrun, so that the next tick
/// starts at once.
pub fn rest_after(budget: u64, spent: u64) -> (r: u64)
    ensures
        r == (if spent < budget { budget - spent } else { 0 }),
{
    if spent < budget {
        budget - spent
    } else {
        0
    }
}

/// Whether another tick is due: the game goes on, and the tick starting at
/// `tick_start` comes before the round's end at `round_end`.
pub fn round_continues(alive: bool, tick_start: u64, round_end: u64) -> (r: bool)
    ensures
        r == (alive && tick_start < round_end),
{
    alive && tick_start < round_end
}

} // verus!
