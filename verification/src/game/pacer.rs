//! The cadence of the loop: no frame sooner than the floor, no step longer
//! than the ceiling.

use vstd::prelude::*;
use crate::game::frame::Frame;
use crate::game::input::InputEvent;

verus! {

/// The shortest frame, in nanoseconds: 16 ms.
pub const MIN_FRAME_NANOS: u64 = 16_000_000;

/// The longest span that one step simulates, in nanoseconds: 50 ms.
pub const MAX_DELTA_NANOS: u64 = 50_000_000;

/// Whether enough time has passed since the frame began for the next step.
pub open spec fn frame_is_due(elapsed: int) -> bool {
    elapsed >= MIN_FRAME_NANOS
}

/// The span that a step simulates when `elapsed` nanoseconds were measured:
/// `elapsed` itself, but no more than the ceiling.
pub open spec fn clamped_delta(elapsed: int) -> int {
    if elapsed > MAX_DELTA_NANOS {
        MAX_DELTA_NANOS as int
    } else {
        elapsed
    }
}

/// Tells whether the frame that began `elapsed` nanoseconds ago may step.
pub fn frame_due(elapsed: u64) -> (due: bool)
    ensures
        due == frame_is_due(elapsed as int),
{
    elapsed >= MIN_FRAME_NANOS
}

/// Cuts a measured span down to the ceiling.
pub fn clamp_delta(elapsed: u64) -> (dt: u64)
    ensures
        dt == clamped_delta(elapsed as int),
        dt <= MAX_DELTA_NANOS,
        dt <= elapsed,
{
    if elapsed > MAX_DELTA_NANOS {
        MAX_DELTA_NANOS
    } else {
        elapsed
    }
}

/// Whether the loop still runs. `Terminated` is final.
#[derive(Clone, Copy, Debug, PartialEq, Eq, Structural)]
pub enum LoopState {
    Running,
    Terminated,
}

/// What the world reports back to the loop.
#[derive(Debug)]
pub enum LoopEvent {
    /// The input source could not be had.
    InputUnavailable,
    /// Everything the input source held, oldest first.
    Input(Vec<InputEvent>),
    /// The clock could not be read.
    ClockFailed,
    /// Nanoseconds since this frame began.
    Elapsed(u64),
}

/// What the loop asks of the world next.
#[derive(Clone, Copy, Debug, PartialEq, Eq, Structural)]
pub enum LoopAction {
    /// Leave the loop.
    Stop,
    /// Read the clock and report the time elapsed since this frame began.
    MeasureTime,
    /// Draw this picture, begin the next frame now, and report its input.
    Render(Frame),
}

} // verus!
