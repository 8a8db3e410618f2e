//! The bounded sample queue between the decode path and the audio device.
//!
//! The producer appends decoded samples and is never made to wait: what does
//! not fit is dropped. The consumer takes the oldest samples and is never made
//! to wait either: where the backlog runs out it is handed silence.

use std::collections::VecDeque;
use vstd::prelude::*;

verus! {

/// How many of `offered` incoming samples fit into a buffer that holds `len`
/// samples and may hold at most `capacity`.
pub open spec fn accepted(len: nat, capacity: nat, offered: nat) -> nat {
    if len >= capacity {
        0
    } else if offered <= capacity - len {
        offered
    } else {
        (capacity - len) as nat
    }
}

/// Contents of a buffer after `samples` arrive: the backlog is kept and the
/// leading samples that still fit are appended in order.
pub open spec fn enqueued<T>(contents: Seq<T>, capacity: nat, samples: Seq<T>) -> Seq<T> {
    contents + samples.take(accepted(contents.len(), capacity, samples.len()) as int)
}

/// The `n` samples handed out by a pull: the oldest buffered samples first, then
/// `silence` for every slot the backlog cannot serve.
pub open spec fn pulled<T>(contents: Seq<T>, n: nat, silence: T) -> Seq<T> {
    Seq::new(
        n,
        |i: int|
            if i < contents.len() {
                contents[i]
            } else {
                silence
            },
    )
}

/// Contents of a buffer after a pull of `n` samples.
pub open spec fn drained<T>(contents: Seq<T>, n: nat) -> Seq<T> {
    if n >= contents.len() {
        Seq::empty()
    } else {
        contents.skip(n as int)
    }
}

/// A full buffer takes nothing: the backlog stays as it is, whatever arrives.
pub proof fn lemma_full_buffer_drops_all<T>(contents: Seq<T>, capacity: nat, samples: Seq<T>)
    requires
        contents.len() == capacity,
    ensures
        accepted(contents.len(), capacity, samples.len()) == 0,
        enqueued(contents, capacity, samples) == contents,
        enqueued(contents, capacity, samples).len() == capacity,
{
    assert(enqueued(contents, capacity, samples) =~= contents);
}

/// Where fewer slots are free than samples arrive, exactly the free slots are
/// filled, with the leading samples in their order, and the buffer is full.
pub proof fn lemma_partial_fill<T>(contents: Seq<T>, capacity: nat, samples: Seq<T>)
    requires
        contents.len() <= capacity,
        capacity - contents.len() < samples.len(),
    ensures
        accepted(contents.len(), capacity, samples.len()) == capacity - contents.len(),
        enqueued(contents, capacity, samples) == contents + samples.take(
            capacity - contents.len(),
        ),
        enqueued(contents, capacity, samples).len() == capacity,
        forall|i: int|
            0 <= i < contents.len() ==> enqueued(contents, capacity, samples)[i] == contents[i],
        forall|i: int|
            0 <= i < capacity - contents.len() ==> enqueued(contents, capacity, samples)[
                contents.len() + i
            ] == samples[i],
{
}

/// Where everything that arrives fits, all of it is appended in order.
pub proof fn lemma_complete_fill<T>(contents: Seq<T>, capacity: nat, samples: Seq<T>)
    requires
        contents.len() + samples.len() <= capacity,
    ensures
        accepted(contents.len(), capacity, samples.len()) == samples.len(),
        enqueued(contents, capacity, samples) == contents + samples,
{
    assert(samples.take(samples.len() as int) =~= samples);
}

/// Appending never takes a buffer beyond its capacity.
pub proof fn lemma_enqueue_respects_capacity<T>(contents: Seq<T>, capacity: nat, samples: Seq<T>)
    requires
        contents.len() <= capacity,
    ensures
        enqueued(contents, capacity, samples).len() <= capacity,
        enqueued(contents, capacity, samples).len() == contents.len() + accepted(
            contents.len(),
            capacity,
            samples.len(),
        ),
{
}

/// A pull from an empty buffer yields `n` samples of silence and leaves the
/// buffer empty.
pub proof fn lemma_pull_from_empty<T>(n: nat, silence: T)
    ensures
        pulled(Seq::<T>::empty(), n, silence).len() == n,
        forall|i: int| 0 <= i < n ==> pulled(Seq::<T>::empty(), n, silence)[i] == silence,
        drained(Seq::<T>::empty(), n) == Seq::<T>::empty(),
{
}

/// A pull hands out the oldest samples first, in the order in which they
/// arrived, pads with silence, and leaves the rest of the backlog in place.
pub proof fn lemma_pull_is_first_in_first_out<T>(contents: Seq<T>, n: nat, silence: T)
    ensures
        pulled(contents, n, silence).len() == n,
        n <= contents.len() ==> pulled(contents, n, silence) == contents.take(n as int),
        n <= contents.len() ==> pulled(contents, n, silence) + drained(contents, n) == contents,
        n >= contents.len() ==> pulled(contents, n, silence) == contents + Seq::new(
            (n - contents.len()) as nat,
            |i: int| silence,
        ),
{
    if n <= contents.len() {
        assert(pulled(contents, n, silence) =~= contents.take(n as int));
        assert(contents.take(n as int) + drained(contents, n) =~= contents);
    }
    if n >= contents.len() {
        assert(pulled(contents, n, silence) =~= contents + Seq::new(
            (n - contents.len()) as nat,
            |i: int| silence,
        ));
    }
}

/// A bounded first-in first-out queue of interleaved audio samples.
///
/// `T` is the sample format; the value that stands for silence in that format
/// is fixed when the buffer is made. The view is the backlog, oldest sample
/// first.
pub struct AudioRingBuffer<T> {
    queue: VecDeque<T>,
    capacity: usize,
    silence: T,
}

impl<T> View for AudioRingBuffer<T> {
    type V = Seq<T>;

    closed spec fn view(&self) -> Seq<T> {
        self.queue@
    }
}

impl<T> AudioRingBuffer<T> {
    #[verifier::type_invariant]
    spec fn within_capacity(&self) -> bool {
        self.queue@.len() <= self.capacity
    }

    /// The largest number of samples the buffer may hold.
    pub closed spec fn spec_capacity(&self) -> nat {
        self.capacity as nat
    }

    /// The sample value that stands for silence.
    pub closed spec fn spec_silence(&self) -> T {
        self.silence
    }
}

/// Takes the oldest sample out of `queue`, or `silence` where there is none.
fn pop_or_silence<T: Copy>(queue: &mut VecDeque<T>, silence: T) -> (sample: T)
    ensures
        sample == pulled(old(queue)@, 1, silence)[0],
        final(queue)@ == drained(old(queue)@, 1),
{
    match queue.pop_front() {
        Some(sample) => {
            proof {
                assert(queue@ =~= drained(old(queue)@, 1));
            }
            sample
        },
        None => {
            proof {
                assert(queue@ =~= drained(old(queue)@, 1));
            }
            silence
        },
    }
}

impl<T: Copy> AudioRingBuffer<T> {
    /// An empty buffer for at most `capacity` samples.
    pub fn new(capacity: usize, silence: T) -> (ring: Self)
        ensures
            ring@ == Seq::<T>::empty(),
            ring.spec_capacity() == capacity,
            ring.spec_silence() == silence,
    {
        AudioRingBuffer { queue: VecDeque::with_capacity(capacity), capacity, silence }
    }

    /// The largest number of samples the buffer may hold.
    pub fn capacity(&self) -> (n: usize)
        ensures
            n == self.spec_capacity(),
    {
        self.capacity
    }

    /// The sample value that is handed out where the backlog runs out.
    pub fn silence(&self) -> (s: T)
        ensures
            s == self.spec_silence(),
    {
        self.silence
    }

    /// The number of samples waiting to be played.
    pub fn len(&self) -> (n: usize)
        ensures
            n == self@.len(),
            n <= self.spec_capacity(),
    {
        proof {
            use_type_invariant(self);
        }
        self.queue.len()
    }

    /// Whether no sample is waiting to be played.
    pub fn is_empty(&self) -> (empty: bool)
        ensures
            empty <==> self@.len() == 0,
    {
        self.queue.len() == 0
    }

    /// The number of samples that can still be appended.
    pub fn free_space(&self) -> (n: usize)
        ensures
            n == self.spec_capacity() - self@.len(),
    {
        proof {
            use_type_invariant(self);
        }
        self.capacity - self.queue.len()
    }

    /// Appends the leading samples of `samples` that fit and drops the rest.
    /// Returns how many were appended.
    pub fn enqueue(&mut self, samples: &[T]) -> (count: usize)
        ensures
            final(self)@ == enqueued(old(self)@, old(self).spec_capacity(), samples@),
            count == accepted(old(self)@.len(), old(self).spec_capacity(), samples@.len()),
            final(self)@.len() <= final(self).spec_capacity(),
            final(self).spec_capacity() == old(self).spec_capacity(),
            final(self).spec_silence() == old(self).spec_silence(),
    {
        proof {
            use_type_invariant(&*self);
        }
        let space: usize = self.capacity - self.queue.len();
        let count: usize = if samples.len() <= space {
            samples.len()
        } else {
            space
        };
        let mut queue: VecDeque<T> = VecDeque::new();
        core::mem::swap(&mut self.queue, &mut queue);
        let mut i: usize = 0;
        while i < count
            invariant
                i <= count,
                count <= samples@.len(),
                queue@ == old(self).queue@ + samples@.take(i as int),
            decreases count - i,
        {
            queue.push_back(samples[i]);
            proof {
                assert(samples@.take(i as int).push(samples@[i as int]) =~= samples@.take(i + 1));
            }
            i = i + 1;
        }
        self.queue = queue;
        count
    }

    /// Fills every slot of `out`: with the oldest buffered samples as far as
    /// they reach, with silence beyond.
    pub fn fill(&mut self, out: &mut [T])
        ensures
            final(out)@ == pulled(old(self)@, old(out)@.len(), old(self).spec_silence()),
            final(self)@ == drained(old(self)@, old(out)@.len()),
            final(self)@.len() <= final(self).spec_capacity(),
            final(self).spec_capacity() == old(self).spec_capacity(),
            final(self).spec_silence() == old(self).spec_silence(),
    {
        proof {
            use_type_invariant(&*self);
        }
        let silence: T = self.silence;
        let n: usize = out.len();
        let mut queue: VecDeque<T> = VecDeque::new();
        core::mem::swap(&mut self.queue, &mut queue);
        let mut i: usize = 0;
        while i < n
            invariant
                i <= n,
                out@.len() == n,
                queue@ == drained(old(self).queue@, i as nat),
                forall|j: int|
                    0 <= j < i ==> out@[j] == pulled(old(self).queue@, n as nat, silence)[j],
            decreases n - i,
        {
            let sample: T = pop_or_silence(&mut queue, silence);
            out[i] = sample;
            proof {
                assert(queue@ =~= drained(old(self).queue@, (i + 1) as nat));
            }
            i = i + 1;
        }
        proof {
            assert(out@ =~= pulled(old(self).queue@, n as nat, silence));
        }
        self.queue = queue;
    }

    /// Takes `n` samples: the oldest buffered samples as far as they reach,
    /// silence beyond.
    pub fn pull(&mut self, n: usize) -> (samples: Vec<T>)
        ensures
            samples@ == pulled(old(self)@, n as nat, old(self).spec_silence()),
            final(self)@ == drained(old(self)@, n as nat),
            final(self)@.len() <= final(self).spec_capacity(),
            final(self).spec_capacity() == old(self).spec_capacity(),
            final(self).spec_silence() == old(self).spec_silence(),
    {
        proof {
            use_type_invariant(&*self);
        }
        let silence: T = self.silence;
        let mut queue: VecDeque<T> = VecDeque::new();
        core::mem::swap(&mut self.queue, &mut queue);
        let mut samples: Vec<T> = Vec::with_capacity(n);
        let mut i: usize = 0;
        while i < n
            invariant
                i <= n,
                samples@.len() == i,
                queue@ == drained(old(self).queue@, i as nat),
                forall|j: int|
                    0 <= j < i ==> samples@[j] == pulled(old(self).queue@, n as nat, silence)[j],
            decreases n - i,
        {
            let sample: T = pop_or_silence(&mut queue, silence);
            samples.push(sample);
            proof {
                assert(queue@ =~= drained(old(self).queue@, (i + 1) as nat));
            }
            i = i + 1;
        }
        proof {
            assert(samples@ =~= pulled(old(self).queue@, n as nat, silence));
        }
        self.queue = queue;
        samples
    }
}

} // verus!
