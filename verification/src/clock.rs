//! The audio clock: where in stream time the audio path has got to.

use crate::rational::Rational;
use vstd::prelude::*;

verus! {

/// The stream-time position of the audio that was enqueued last.
///
/// The position is kept exactly, as a tick count and the stream's time base:
/// it stands for `ticks * time_base` seconds. It follows the decode side: it
/// moves when samples are handed over, not when they are played.
#[derive(Clone, Copy, Debug, PartialEq, Eq, Structural)]
pub struct AudioClock {
    pub ticks: i64,
    pub time_base: Rational,
}

impl AudioClock {
    /// The position in nanoseconds, rounded to the nearest.
    pub open spec fn position_nanos_spec(self) -> int
        recommends
            self.time_base.is_defined(),
    {
        self.time_base.nanos_of_ticks(self.ticks as int)
    }

    /// A clock at the start of the stream.
    pub fn new(time_base: Rational) -> (clock: AudioClock)
        ensures
            clock.ticks == 0,
            clock.time_base == time_base,
    {
        AudioClock { ticks: 0, time_base }
    }

    /// Moves the clock to the presentation timestamp `pts`.
    pub fn set(&mut self, pts: i64)
        ensures
            final(self).ticks == pts,
            final(self).time_base == old(self).time_base,
    {
        self.ticks = pts;
    }

    /// The position in nanoseconds, or `None` where the time base has no
    /// value.
    pub fn position_nanos(&self) -> (nanos: Option<i128>)
        ensures
            nanos is Some <==> self.time_base.is_defined(),
            nanos matches Some(t) ==> t == self.position_nanos_spec(),
    {
        self.time_base.ticks_to_nanos(self.ticks)
    }
}

} // verus!
