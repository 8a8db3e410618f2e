//! The audio path: a ring buffer that the audio device drains, and the clock
//! that follows what was put into it.

use crate::clock::AudioClock;
use crate::rational::Rational;
use crate::ring::accepted;
use crate::ring::drained;
use crate::ring::enqueued;
use crate::ring::pulled;
use crate::ring::AudioRingBuffer;
use vstd::prelude::*;

verus! {

/// Samples that the ring buffer holds for each channel.
pub const AUDIO_BUFFER_SIZE: usize = 16384;

/// Samples per channel that the audio device is asked to take at a time.
pub const DEVICE_BUFFER_SAMPLES: u16 = 4096;

/// What an [`AudioPlayer`] is, as a value: its backlog, oldest sample first,
/// and its settings.
pub struct PlayerState<T> {
    pub buffered: Seq<T>,
    pub capacity: nat,
    pub silence: T,
    pub clock: AudioClock,
    pub channels: u8,
    pub sample_rate: i32,
}

impl<T> PlayerState<T> {
    /// The backlog fits the buffer, and the buffer has room for
    /// `AUDIO_BUFFER_SIZE` samples of each channel.
    pub open spec fn wf(self) -> bool {
        &&& self.buffered.len() <= self.capacity
        &&& self.capacity == AUDIO_BUFFER_SIZE * self.channels
    }

    /// The state after `samples` stamped `pts` were handed over: what fits is
    /// appended, and the clock stands at `pts` in any case.
    pub open spec fn enqueue(self, samples: Seq<T>, pts: i64) -> PlayerState<T> {
        PlayerState {
            buffered: enqueued(self.buffered, self.capacity, samples),
            clock: AudioClock { ticks: pts, time_base: self.clock.time_base },
            ..self
        }
    }

    /// The `n` samples that the device gets when it asks for `n`.
    pub open spec fn output(self, n: nat) -> Seq<T> {
        pulled(self.buffered, n, self.silence)
    }

    /// The state after the device took `n` samples. The clock stays.
    pub open spec fn pull(self, n: nat) -> PlayerState<T> {
        PlayerState { buffered: drained(self.buffered, n), ..self }
    }
}

/// Handing samples to a full buffer appends none of them and still moves the
/// clock to their timestamp.
pub proof fn lemma_overflow_keeps_backlog_and_moves_clock<T>(
    state: PlayerState<T>,
    samples: Seq<T>,
    pts: i64,
)
    requires
        state.buffered.len() == state.capacity,
    ensures
        state.enqueue(samples, pts).buffered == state.buffered,
        state.enqueue(samples, pts).buffered.len() == state.capacity,
        state.enqueue(samples, pts).clock.ticks == pts,
        state.enqueue(samples, pts).clock.time_base == state.clock.time_base,
{
    crate::ring::lemma_full_buffer_drops_all(state.buffered, state.capacity, samples);
}

/// With `free` slots left and more than `free` samples arriving, exactly the
/// first `free` samples are appended, in their order.
pub proof fn lemma_partial_fill_appends_free_slots<T>(
    state: PlayerState<T>,
    samples: Seq<T>,
    pts: i64,
    free: nat,
)
    requires
        state.buffered.len() + free == state.capacity,
        free < samples.len(),
    ensures
        state.enqueue(samples, pts).buffered == state.buffered + samples.take(free as int),
        state.enqueue(samples, pts).buffered.len() == state.buffered.len() + free,
        state.enqueue(samples, pts).clock.ticks == pts,
{
    crate::ring::lemma_partial_fill(state.buffered, state.capacity, samples);
}

/// An empty player answers a request for `n` samples with `n` samples of
/// silence, and is unchanged by it.
pub proof fn lemma_pull_from_empty_is_silence<T>(state: PlayerState<T>, n: nat)
    requires
        state.buffered.len() == 0,
    ensures
        state.output(n).len() == n,
        forall|i: int| 0 <= i < n ==> state.output(n)[i] == state.silence,
        state.pull(n) == state,
{
    assert(state.pull(n).buffered =~= state.buffered);
}

/// Neither handing samples over nor taking them out breaks a well-formed
/// state, and neither changes the settings.
pub proof fn lemma_operations_preserve_wf<T>(
    state: PlayerState<T>,
    samples: Seq<T>,
    pts: i64,
    n: nat,
)
    requires
        state.wf(),
    ensures
        state.enqueue(samples, pts).wf(),
        state.pull(n).wf(),
        state.enqueue(samples, pts).capacity == state.capacity,
        state.pull(n).capacity == state.capacity,
        state.pull(n).clock == state.clock,
{
}

/// The producer's and the consumer's end of the audio path.
///
/// `T` is the sample format. Samples are interleaved by channel.
pub struct AudioPlayer<T> {
    ring: AudioRingBuffer<T>,
    channels: u8,
    sample_rate: i32,
    clock: AudioClock,
}

impl<T> View for AudioPlayer<T> {
    type V = PlayerState<T>;

    closed spec fn view(&self) -> PlayerState<T> {
        PlayerState {
            buffered: self.ring@,
            capacity: self.ring.spec_capacity(),
            silence: self.ring.spec_silence(),
            clock: self.clock,
            channels: self.channels,
            sample_rate: self.sample_rate,
        }
    }
}

impl<T: Copy> AudioPlayer<T> {
    /// A player with an empty buffer and its clock at the start of the
    /// stream. `silence` is what the device is given when the buffer runs dry.
    pub fn new(channels: u8, time_base: Rational, sample_rate: i32, silence: T) -> (player: Self)
        ensures
            player@.wf(),
            player@.buffered == Seq::<T>::empty(),
            player@.capacity == AUDIO_BUFFER_SIZE * channels,
            player@.silence == silence,
            player@.clock == (AudioClock { ticks: 0, time_base }),
            player@.channels == channels,
            player@.sample_rate == sample_rate,
    {
        let capacity: usize = AUDIO_BUFFER_SIZE * (channels as usize);
        AudioPlayer {
            ring: AudioRingBuffer::new(capacity, silence),
            channels,
            sample_rate,
            clock: AudioClock::new(time_base),
        }
    }

    /// Hands decoded samples stamped `pts` to the device's queue. The clock
    /// moves to `pts`; the samples are appended as far as the buffer has room,
    /// and the rest is dropped. Returns how many were appended.
    pub fn enqueue(&mut self, samples: &[T], pts: i64) -> (count: usize)
        ensures
            final(self)@ == old(self)@.enqueue(samples@, pts),
            old(self)@.wf() ==> final(self)@.wf(),
            count == accepted(old(self)@.buffered.len(), old(self)@.capacity, samples@.len()),
    {
        self.clock.set(pts);
        self.ring.enqueue(samples)
    }

    /// Serves the audio device: fills every slot of `out` with the oldest
    /// buffered samples as far as they reach, with silence beyond.
    pub fn fill(&mut self, out: &mut [T])
        ensures
            final(out)@ == old(self)@.output(old(out)@.len()),
            final(self)@ == old(self)@.pull(old(out)@.len()),
            old(self)@.wf() ==> final(self)@.wf(),
    {
        self.ring.fill(out);
    }

    /// Takes `n` samples out: the oldest buffered samples as far as they
    /// reach, silence beyond.
    pub fn pull(&mut self, n: usize) -> (samples: Vec<T>)
        ensures
            samples@ == old(self)@.output(n as nat),
            final(self)@ == old(self)@.pull(n as nat),
            old(self)@.wf() ==> final(self)@.wf(),
    {
        self.ring.pull(n)
    }

    /// The clock as it stands.
    pub fn clock(&self) -> (clock: AudioClock)
        ensures
            clock == self@.clock,
    {
        self.clock
    }

    /// The number of channels whose samples are interleaved.
    pub fn channels(&self) -> (channels: u8)
        ensures
            channels == self@.channels,
    {
        self.channels
    }

    /// Samples per second and channel.
    pub fn sample_rate(&self) -> (rate: i32)
        ensures
            rate == self@.sample_rate,
    {
        self.sample_rate
    }

    /// The largest number of samples that can wait to be played.
    pub fn capacity(&self) -> (n: usize)
        ensures
            n == self@.capacity,
    {
        self.ring.capacity()
    }

    /// The number of samples waiting to be played.
    pub fn buffered_len(&self) -> (n: usize)
        ensures
            n == self@.buffered.len(),
            n <= self@.capacity,
    {
        self.ring.len()
    }
}

} // verus!
