//! The video pacer: when is a decoded frame to be shown?
//!
//! The pacer keeps a schedule on the caller's monotonic clock. The first frame
//! it sees is shown at once and fixes the origin. Every later frame is due one
//! frame period after the frame before it was due: the targets are the origin
//! plus whole multiples of the period, so a slow iteration delays one frame and
//! never shifts the schedule. A frame that comes early is held until its
//! target; one that comes late is shown at once, and none is dropped.
//!
//! The pacer neither reads a clock nor sleeps. The caller passes the instant at
//! which it asks, in nanoseconds, and is told how long to wait.

use crate::rational::Rational;
use vstd::prelude::*;

verus! {

/// A summary for diagnostics is made for every frame whose count is a
/// multiple of this.
pub const STATS_INTERVAL: u64 = 30;

/// Whether a frame is shown at once or held back first.
#[derive(Clone, Copy, Debug, PartialEq, Eq, Structural)]
pub enum Timing {
    /// The frame is due or late, or it is the first.
    DisplayNow,
    /// The frame is early: it is shown after `delay` nanoseconds.
    Wait { delay: u64 },
}

/// Numbers for a periodic diagnostic summary. They steer nothing.
#[derive(Clone, Copy, Debug, PartialEq, Eq)]
pub struct FrameStats {
    /// Frames counted so far, this one included. The first frame of a session
    /// is not counted.
    pub frame_count: u64,
    /// Nanoseconds between the previous evaluation and this one.
    pub interval: u64,
    /// Nanoseconds between the session's origin and this evaluation.
    pub elapsed: u64,
    /// The frame's presentation timestamp.
    pub pts: i64,
    /// The frame's stream time in nanoseconds, where the time base has a
    /// value.
    pub video_time: Option<i128>,
    /// `elapsed` minus `video_time`: positive where playback is behind the
    /// stream, negative where it is ahead.
    pub lag: Option<i128>,
}

/// The pacer's answer for one frame.
#[derive(Clone, Copy, Debug, PartialEq, Eq)]
pub struct Verdict {
    pub timing: Timing,
    /// The instant at which the frame is shown.
    pub display_at: u64,
    pub stats: Option<FrameStats>,
}

/// The schedule of a session that has seen its first frame.
pub struct Schedule {
    /// The origin: the instant of the first evaluation.
    pub start: nat,
    /// The instant of the latest evaluation.
    pub last: nat,
    /// The instant at which the next frame is due.
    pub next_target: nat,
}

/// What a [`VideoPacer`] is, as a value.
pub struct PacerState {
    pub frame_rate: Rational,
    pub time_base: Rational,
    /// The frame period in nanoseconds.
    pub frame_duration: nat,
    /// Frames evaluated after the first.
    pub frame_count: nat,
    /// `None` until the first frame is evaluated.
    pub schedule: Option<Schedule>,
    pub total_drift: nat,
}

/// `later - earlier` where the clock went forward, zero where it did not.
pub open spec fn gap(later: nat, earlier: nat) -> nat {
    if later >= earlier {
        (later - earlier) as nat
    } else {
        0
    }
}

impl PacerState {
    /// The period is that of the frame rate, nothing is counted before the
    /// first frame, and the next target lies a whole number of periods after
    /// the origin: one more than the frames counted.
    pub open spec fn wf(self) -> bool {
        &&& self.frame_rate.has_period()
        &&& self.frame_duration == self.frame_rate.period_nanos_spec()
        &&& match self.schedule {
            None => self.frame_count == 0,
            Some(s) => s.next_target == s.start + (self.frame_count + 1) * self.frame_duration,
        }
    }

    /// A frame evaluated at `now` comes before its target.
    pub open spec fn is_early(self, now: nat) -> bool {
        match self.schedule {
            None => false,
            Some(s) => now < s.next_target,
        }
    }

    /// The instant at which a frame evaluated at `now` is shown.
    pub open spec fn display_at(self, now: nat) -> nat {
        match self.schedule {
            None => now,
            Some(s) => if now < s.next_target {
                s.next_target
            } else {
                now
            },
        }
    }

    /// How long a frame evaluated at `now` is held back.
    pub open spec fn delay(self, now: nat) -> nat {
        (self.display_at(now) - now) as nat
    }

    /// The instant at which the latest frame was shown. Meaningful once the
    /// first frame has been evaluated.
    pub open spec fn released_at(self) -> nat {
        match self.schedule {
            None => 0,
            Some(s) => if s.last + self.frame_duration >= s.next_target {
                s.last
            } else {
                (s.next_target - self.frame_duration) as nat
            },
        }
    }

    /// The state after a frame was evaluated at `now`.
    pub open spec fn step(self, now: nat) -> PacerState {
        match self.schedule {
            None => PacerState {
                schedule: Some(
                    Schedule { start: now, last: now, next_target: now + self.frame_duration },
                ),
                ..self
            },
            Some(s) => PacerState {
                frame_count: self.frame_count + 1,
                schedule: Some(
                    Schedule {
                        start: s.start,
                        last: now,
                        next_target: s.next_target + self.frame_duration,
                    },
                ),
                ..self
            },
        }
    }

    /// The state after frames were evaluated at the instants `nows`, one after
    /// the other.
    pub open spec fn after(self, nows: Seq<nat>) -> PacerState
        decreases nows.len(),
    {
        if nows.len() == 0 {
            self
        } else {
            self.after(nows.drop_last()).step(nows.last())
        }
    }

    /// The instants `nows` are those of calls made back to back: each but the
    /// first is made at the instant at which the frame before it is shown.
    pub open spec fn back_to_back(self, nows: Seq<nat>) -> bool {
        forall|i: int|
            1 <= i < nows.len() ==> nows[i] == #[trigger] self.after(nows.take(i - 1)).display_at(
                nows[i - 1],
            )
    }

    /// The evaluation at `now` stays within the machine's integers.
    pub open spec fn in_range(self, now: nat) -> bool {
        match self.schedule {
            None => now + self.frame_duration <= u64::MAX,
            Some(s) => s.next_target + self.frame_duration <= u64::MAX && self.frame_count
                < u64::MAX,
        }
    }

    /// Whether, and how long, a frame evaluated at `now` is held back.
    pub open spec fn timing(self, now: nat) -> Timing {
        if self.is_early(now) {
            Timing::Wait { delay: self.delay(now) as u64 }
        } else {
            Timing::DisplayNow
        }
    }

    /// The summary that goes with a frame stamped `pts` and evaluated at
    /// `now`: one for every `STATS_INTERVAL`th counted frame.
    pub open spec fn stats(self, now: nat, pts: i64) -> Option<FrameStats> {
        match self.schedule {
            None => None,
            Some(s) => if (self.frame_count + 1) % (STATS_INTERVAL as nat) == 0 {
                Some(
                    FrameStats {
                        frame_count: (self.frame_count + 1) as u64,
                        interval: gap(now, s.last) as u64,
                        elapsed: gap(now, s.start) as u64,
                        pts,
                        video_time: if self.time_base.is_defined() {
                            Some(self.time_base.nanos_of_ticks(pts as int) as i128)
                        } else {
                            None
                        },
                        lag: if self.time_base.is_defined() {
                            Some(
                                (gap(now, s.start) - self.time_base.nanos_of_ticks(
                                    pts as int,
                                )) as i128,
                            )
                        } else {
                            None
                        },
                    },
                )
            } else {
                None
            },
        }
    }

    /// The answer for a frame stamped `pts` and evaluated at `now`.
    pub open spec fn verdict(self, now: nat, pts: i64) -> Verdict {
        Verdict {
            timing: self.timing(now),
            display_at: self.display_at(now) as u64,
            stats: self.stats(now, pts),
        }
    }
}

/// An evaluation keeps a well-formed state well-formed, and changes neither
/// the period nor the origin.
pub proof fn lemma_step_preserves_wf(state: PacerState, now: nat)
    requires
        state.wf(),
    ensures
        state.step(now).wf(),
        state.step(now).frame_duration == state.frame_duration,
        state.step(now).schedule is Some,
        state.schedule matches Some(s) ==> state.step(now).schedule->0.start == s.start,
{
    let d = state.frame_duration;
    let c = state.frame_count;
    assert((c + 1 + 1) * d == (c + 1) * d + d) by (nonlinear_arith);
    assert((0 + 1) * d == d) by (nonlinear_arith);
}

/// The first frame of a session is shown at once, whatever its timestamp, and
/// the instant at which it is evaluated becomes the origin: the next frame is
/// due one period later.
pub proof fn lemma_first_frame_anchors(state: PacerState, now: nat, pts: i64)
    requires
        state.schedule is None,
    ensures
        state.timing(now) == Timing::DisplayNow,
        state.display_at(now) == now,
        state.delay(now) == 0,
        state.verdict(now, pts).timing == Timing::DisplayNow,
        state.verdict(now, pts).stats is None,
        state.step(now).schedule == Some(
            Schedule { start: now, last: now, next_target: now + state.frame_duration },
        ),
        state.step(now).frame_count == state.frame_count,
{
}

/// Whether a frame is held back, and until when, does not depend on its
/// timestamp.
pub proof fn lemma_timing_ignores_pts(state: PacerState, now: nat, pts_a: i64, pts_b: i64)
    ensures
        state.verdict(now, pts_a).timing == state.verdict(now, pts_b).timing,
        state.verdict(now, pts_a).display_at == state.verdict(now, pts_b).display_at,
{
}

/// A frame is never shown before it is evaluated, and an early frame is shown
/// exactly at its target.
pub proof fn lemma_display_at(state: PacerState, now: nat)
    ensures
        state.display_at(now) >= now,
        state.is_early(now) ==> state.display_at(now) == state.schedule->0.next_target,
        !state.is_early(now) ==> state.display_at(now) == now && state.delay(now) == 0,
        state.is_early(now) ==> state.delay(now) > 0,
{
}

/// After the first frame at `nows[0]` and any further frames, early or late,
/// the origin is still `nows[0]`, every further frame has been counted, and
/// the next target lies as many periods after the origin as frames were
/// evaluated.
pub proof fn lemma_targets_are_multiples_of_period(state: PacerState, nows: Seq<nat>)
    requires
        state.wf(),
        state.schedule is None,
        nows.len() >= 1,
    ensures
        state.after(nows).wf(),
        state.after(nows).frame_duration == state.frame_duration,
        state.after(nows).schedule is Some,
        state.after(nows).schedule->0.start == nows[0],
        state.after(nows).schedule->0.last == nows.last(),
        state.after(nows).frame_count == nows.len() - 1,
        state.after(nows).schedule->0.next_target == nows[0] + nows.len() * state.frame_duration,
    decreases nows.len(),
{
    let d = state.frame_duration;
    if nows.len() == 1 {
        assert(nows.drop_last().len() == 0);
        assert(state.after(nows.drop_last()) == state);
        assert(state.after(nows) == state.step(nows[0]));
        assert(1 * d == d) by (nonlinear_arith);
    } else {
        let before = nows.drop_last();
        lemma_targets_are_multiples_of_period(state, before);
        lemma_step_preserves_wf(state.after(before), nows.last());
        assert(before[0] == nows[0]);
        assert((before.len() + 1) * d == before.len() * d + d) by (nonlinear_arith);
    }
}

/// Periodicity. Let the first frame be evaluated at `nows[0]`. Whatever
/// happened to the frames in between, a later frame `k` that comes early is
/// shown exactly `k` periods after the origin.
pub proof fn lemma_early_frame_is_shown_on_the_grid(state: PacerState, nows: Seq<nat>, k: int)
    requires
        state.wf(),
        state.schedule is None,
        1 <= k < nows.len(),
        state.after(nows.take(k)).is_early(nows[k]),
    ensures
        state.after(nows.take(k)).display_at(nows[k]) == nows[0] + k * state.frame_duration,
        state.after(nows.take(k)).delay(nows[k]) == nows[0] + k * state.frame_duration - nows[k],
{
    lemma_targets_are_multiples_of_period(state, nows.take(k));
    assert(nows.take(k)[0] == nows[0]);
}

/// Periodicity of calls made back to back. Where each evaluation is made at
/// the instant at which the frame before it is shown, frame `k` is shown
/// exactly `k` periods after the origin, every frame after the first is held
/// back for exactly one period, and nothing accumulates over the calls.
pub proof fn lemma_back_to_back_frames_are_periodic(state: PacerState, nows: Seq<nat>, k: int)
    requires
        state.wf(),
        state.schedule is None,
        state.back_to_back(nows),
        0 <= k < nows.len(),
    ensures
        state.after(nows.take(k)).display_at(nows[k]) == nows[0] + k * state.frame_duration,
        k >= 1 ==> state.after(nows.take(k)).delay(nows[k]) == state.frame_duration,
        k >= 1 && state.frame_duration > 0 ==> state.after(nows.take(k)).is_early(nows[k]),
    decreases k,
{
    let d = state.frame_duration;
    if k == 0 {
        assert(nows.take(0).len() == 0);
        assert(state.after(nows.take(0)) == state);
        assert(0 * d == 0) by (nonlinear_arith);
    } else {
        lemma_back_to_back_frames_are_periodic(state, nows, k - 1);
        // The call for frame `k` is made when frame `k - 1` is shown.
        assert(nows[k] == state.after(nows.take(k - 1)).display_at(nows[k - 1]));
        assert(nows[k] == nows[0] + (k - 1) * d);
        lemma_targets_are_multiples_of_period(state, nows.take(k));
        assert(nows.take(k)[0] == nows[0]);
        assert(nows.take(k).len() == k);
        assert(k * d == (k - 1) * d + d) by (nonlinear_arith);
    }
}

/// After an evaluation at `now`, the latest frame is on record as shown at
/// the instant that the evaluation named.
pub proof fn lemma_step_records_release(state: PacerState, now: nat)
    requires
        state.wf(),
    ensures
        state.step(now).released_at() == state.display_at(now),
{
}

/// A frame that is evaluated no earlier than the frame before it was shown is
/// held back for one period at most.
pub proof fn lemma_delay_is_at_most_one_period(state: PacerState, now: nat)
    requires
        state.wf(),
        state.schedule is Some,
        now >= state.released_at(),
    ensures
        state.delay(now) <= state.frame_duration,
{
}

/// Paces the frames of one video stream.
pub struct VideoPacer {
    frame_rate: Rational,
    time_base: Rational,
    frame_duration: u64,
    start_time: Option<u64>,
    last_frame_time: Option<u64>,
    next_frame_target: Option<u64>,
    frame_count: u64,
    total_drift: u64,
}

impl View for VideoPacer {
    type V = PacerState;

    closed spec fn view(&self) -> PacerState {
        PacerState {
            frame_rate: self.frame_rate,
            time_base: self.time_base,
            frame_duration: self.frame_duration as nat,
            frame_count: self.frame_count as nat,
            schedule: match (self.start_time, self.last_frame_time, self.next_frame_target) {
                (Some(start), Some(last), Some(next_target)) => Some(
                    Schedule {
                        start: start as nat,
                        last: last as nat,
                        next_target: next_target as nat,
                    },
                ),
                _ => None,
            },
            total_drift: self.total_drift as nat,
        }
    }
}

impl VideoPacer {
    #[verifier::type_invariant]
    spec fn consistent(&self) -> bool {
        &&& self@.wf()
        &&& self.start_time is Some <==> self.last_frame_time is Some
        &&& self.start_time is Some <==> self.next_frame_target is Some
    }

    /// A pacer for a stream of the given nominal frame rate, before its first
    /// frame. `None` where the rate is zero, negative or `0/0`, so that it has
    /// no period. The time base turns timestamps into stream time for the
    /// diagnostics.
    pub fn new(frame_rate: Rational, time_base: Rational) -> (pacer: Option<VideoPacer>)
        ensures
            pacer is Some <==> frame_rate.has_period(),
            pacer matches Some(p) ==> p@ == (PacerState {
                frame_rate,
                time_base,
                frame_duration: frame_rate.period_nanos_spec() as nat,
                frame_count: 0,
                schedule: None,
                total_drift: 0,
            }) && p@.wf(),
    {
        match frame_rate.period_nanos() {
            Some(frame_duration) => Some(
                VideoPacer {
                    frame_rate,
                    time_base,
                    frame_duration,
                    start_time: None,
                    last_frame_time: None,
                    next_frame_target: None,
                    frame_count: 0,
                    total_drift: 0,
                },
            ),
            None => None,
        }
    }

    /// Whether `evaluate` may be called at `now`: it may unless the schedule or
    /// the frame count would leave the range of 64 bits.
    pub fn can_evaluate(&self, now: u64) -> (ok: bool)
        ensures
            ok == self@.in_range(now as nat),
            self@.wf(),
    {
        proof {
            use_type_invariant(self);
        }
        match self.next_frame_target {
            Some(target) => self.frame_duration <= u64::MAX - target && self.frame_count
                < u64::MAX,
            None => self.frame_duration <= u64::MAX - now,
        }
    }

    /// Decides when the frame stamped `pts`, decoded by the instant `now`, is
    /// shown, and moves the schedule on by one frame.
    ///
    /// The first frame of a session is shown at once and makes `now` the
    /// origin. A later frame that comes before its target is shown at the
    /// target, after the `delay` that the answer names; one that comes at or
    /// after its target is shown at once. Either way the frame is counted and
    /// the next target is one period after this frame's target.
    pub fn evaluate(&mut self, now: u64, pts: i64) -> (verdict: Verdict)
        requires
            old(self)@.in_range(now as nat),
        ensures
            final(self)@ == old(self)@.step(now as nat),
            final(self)@.wf(),
            verdict == old(self)@.verdict(now as nat, pts),
            old(self)@.schedule is None ==> verdict.timing == Timing::DisplayNow
                && verdict.display_at == now && final(self)@.schedule->0.start == now,
    {
        proof {
            use_type_invariant(&*self);
            lemma_step_preserves_wf(self@, now as nat);
        }
        let frame_duration: u64 = self.frame_duration;
        match (self.start_time, self.last_frame_time, self.next_frame_target) {
            (Some(start), Some(last), Some(target)) => {
                let timing: Timing = if now < target {
                    Timing::Wait { delay: target - now }
                } else {
                    Timing::DisplayNow
                };
                let display_at: u64 = if now < target {
                    target
                } else {
                    now
                };
                let frame_count: u64 = self.frame_count + 1;
                let stats: Option<FrameStats> = if frame_count % STATS_INTERVAL == 0 {
                    Some(self.summarise(now, pts, start, last, frame_count))
                } else {
                    None
                };
                *self = VideoPacer {
                    frame_rate: self.frame_rate,
                    time_base: self.time_base,
                    frame_duration,
                    start_time: Some(start),
                    last_frame_time: Some(now),
                    next_frame_target: Some(target + frame_duration),
                    frame_count,
                    total_drift: self.total_drift,
                };
                Verdict { timing, display_at, stats }
            },
            _ => {
                *self = VideoPacer {
                    frame_rate: self.frame_rate,
                    time_base: self.time_base,
                    frame_duration,
                    start_time: Some(now),
                    last_frame_time: Some(now),
                    next_frame_target: Some(now + frame_duration),
                    frame_count: self.frame_count,
                    total_drift: self.total_drift,
                };
                Verdict { timing: Timing::DisplayNow, display_at: now, stats: None }
            },
        }
    }

    /// The numbers of a diagnostic summary for a frame evaluated at `now`.
    fn summarise(&self, now: u64, pts: i64, start: u64, last: u64, frame_count: u64) -> (stats:
        FrameStats)
        ensures
            stats == (FrameStats {
                frame_count,
                interval: gap(now as nat, last as nat) as u64,
                elapsed: gap(now as nat, start as nat) as u64,
                pts,
                video_time: if self.time_base.is_defined() {
                    Some(self.time_base.nanos_of_ticks(pts as int) as i128)
                } else {
                    None
                },
                lag: if self.time_base.is_defined() {
                    Some(
                        (gap(now as nat, start as nat) - self.time_base.nanos_of_ticks(
                            pts as int,
                        )) as i128,
                    )
                } else {
                    None
                },
            }),
    {
        let interval: u64 = if now >= last {
            now - last
        } else {
            0
        };
        let elapsed: u64 = if now >= start {
            now - start
        } else {
            0
        };
        let video_time: Option<i128> = self.time_base.ticks_to_nanos(pts);
        let lag: Option<i128> = match video_time {
            Some(t) => Some(elapsed as i128 - t),
            None => None,
        };
        FrameStats { frame_count, interval, elapsed, pts, video_time, lag }
    }

    /// The nominal frame rate of the stream.
    pub fn frame_rate(&self) -> (rate: Rational)
        ensures
            rate == self@.frame_rate,
    {
        self.frame_rate
    }

    /// The time base of the stream's timestamps.
    pub fn time_base(&self) -> (time_base: Rational)
        ensures
            time_base == self@.time_base,
    {
        self.time_base
    }

    /// The frame period in nanoseconds.
    pub fn frame_duration(&self) -> (nanos: u64)
        ensures
            nanos == self@.frame_duration,
            nanos == self@.frame_rate.period_nanos_spec(),
    {
        proof {
            use_type_invariant(self);
        }
        self.frame_duration
    }

    /// Frames evaluated after the first.
    pub fn frame_count(&self) -> (count: u64)
        ensures
            count == self@.frame_count,
    {
        self.frame_count
    }

    /// The origin of the session, once its first frame has been evaluated.
    pub fn start_time(&self) -> (start: Option<u64>)
        ensures
            start is Some <==> self@.schedule is Some,
            start matches Some(t) ==> t == self@.schedule->0.start,
    {
        proof {
            use_type_invariant(self);
        }
        self.start_time
    }

    /// The instant of the latest evaluation.
    pub fn last_frame_time(&self) -> (last: Option<u64>)
        ensures
            last is Some <==> self@.schedule is Some,
            last matches Some(t) ==> t == self@.schedule->0.last,
    {
        proof {
            use_type_invariant(self);
        }
        self.last_frame_time
    }

    /// The instant at which the next frame is due.
    pub fn next_frame_target(&self) -> (target: Option<u64>)
        ensures
            target is Some <==> self@.schedule is Some,
            target matches Some(t) ==> t == self@.schedule->0.next_target,
            target matches Some(t) ==> t == self@.schedule->0.start + (self@.frame_count + 1)
                * self@.frame_duration,
    {
        proof {
            use_type_invariant(self);
        }
        self.next_frame_target
    }

    /// The drift accumulated for diagnostics. Nothing is corrected by it.
    pub fn total_drift(&self) -> (drift: u64)
        ensures
            drift == self@.total_drift,
    {
        self.total_drift
    }
}

} // verus!
