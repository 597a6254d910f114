//! A sliding window over the most recent samples of a stream.

use crate::span::{samples_spanning, saturated, span_samples, subsecond_nanos, whole_seconds};
use std::collections::VecDeque;
use std::time::Duration;
use vstd::prelude::*;

verus! {

/// How many of the oldest held samples leave so that `chunk` more fit into `capacity`.
pub open spec fn evicted(held: nat, chunk: nat, capacity: nat) -> nat {
    if held + chunk > capacity {
        (held + chunk - capacity) as nat
    } else {
        0
    }
}

/// What a window of `capacity` samples holds after `chunk` arrives while it holds
/// `held`, oldest sample first.
///
/// A chunk longer than the capacity replaces everything by its own last `capacity`
/// samples. Any other chunk is appended after the oldest `evicted(..)` samples have
/// left.
pub open spec fn retained<T>(held: Seq<T>, chunk: Seq<T>, capacity: nat) -> Seq<T> {
    if chunk.len() > capacity {
        chunk.subrange(chunk.len() - capacity, chunk.len() as int)
    } else {
        held.subrange(evicted(held.len(), chunk.len(), capacity) as int, held.len() as int)
            + chunk
    }
}

/// The last `count` elements of `s`, or all of `s` where it is shorter.
pub open spec fn newest<T>(s: Seq<T>, count: nat) -> Seq<T> {
    if s.len() > count {
        s.subrange(s.len() - count, s.len() as int)
    } else {
        s
    }
}

/// The smaller of two lengths.
pub open spec fn shorter(a: nat, b: nat) -> nat {
    if a <= b {
        a
    } else {
        b
    }
}

/// A chunk no longer than the capacity leaves the window with the smaller of its
/// capacity and the old length plus the chunk's; the samples that left are the oldest,
/// and every other one keeps its place behind them.
pub proof fn lemma_fifo_eviction<T>(held: Seq<T>, chunk: Seq<T>, capacity: nat)
    requires
        held.len() <= capacity,
        chunk.len() <= capacity,
    ensures
        evicted(held.len(), chunk.len(), capacity) <= held.len(),
        retained(held, chunk, capacity).len() == shorter(capacity, held.len() + chunk.len()),
        forall|i: int|
            0 <= i < retained(held, chunk, capacity).len() ==> #[trigger] retained(
                held,
                chunk,
                capacity,
            )[i] == (held + chunk)[i + evicted(held.len(), chunk.len(), capacity)],
{
}

/// A chunk longer than the capacity leaves exactly its own last `capacity` samples,
/// whatever the window held before.
pub proof fn lemma_oversized_chunk_replaces<T>(
    held: Seq<T>,
    other: Seq<T>,
    chunk: Seq<T>,
    capacity: nat,
)
    requires
        chunk.len() > capacity,
    ensures
        retained(held, chunk, capacity).len() == capacity,
        retained(held, chunk, capacity) == retained(other, chunk, capacity),
        forall|i: int|
            0 <= i < capacity ==> #[trigger] retained(held, chunk, capacity)[i] == chunk[chunk.len()
                - capacity + i],
{
}

/// Whatever the chunk's length, a window within its capacity afterwards holds the
/// newest `capacity` samples of what it held followed by the chunk.
pub proof fn lemma_retained_is_newest<T>(held: Seq<T>, chunk: Seq<T>, capacity: nat)
    requires
        held.len() <= capacity,
    ensures
        retained(held, chunk, capacity) == newest(held + chunk, capacity),
        retained(held, chunk, capacity).len() <= capacity,
{
    assert(retained(held, chunk, capacity) =~= newest(held + chunk, capacity));
}

/// Feeding two chunks one after the other leaves what feeding them as one chunk leaves.
pub proof fn lemma_chunks_compose<T>(held: Seq<T>, first: Seq<T>, second: Seq<T>, capacity: nat)
    requires
        held.len() <= capacity,
    ensures
        retained(retained(held, first, capacity), second, capacity) == retained(
            held,
            first + second,
            capacity,
        ),
{
    let middle = retained(held, first, capacity);
    lemma_retained_is_newest(held, first, capacity);
    lemma_retained_is_newest(middle, second, capacity);
    lemma_retained_is_newest(held, first + second, capacity);
    assert((held + first) + second =~= held + (first + second));
    assert(newest(newest(held + first, capacity) + second, capacity) =~= newest(
        (held + first) + second,
        capacity,
    ));
}

/// A fixed-capacity window over the most recent samples of a stream, oldest first.
pub struct Window<T> {
    buffer: VecDeque<T>,
    size: usize,
}

impl<T> View for Window<T> {
    type V = Seq<T>;

    /// The samples held, oldest first.
    closed spec fn view(&self) -> Seq<T> {
        self.buffer@
    }
}

impl<T> Window<T> {
    /// The number of samples the window holds once it is full.
    pub closed spec fn limit(&self) -> usize {
        self.size
    }

    /// The window holds no more samples than its capacity. Every constructor and
    /// `add_samples` establish this, so it holds of every window there is.
    pub open spec fn within_capacity(&self) -> bool {
        self@.len() <= self.limit()
    }
}

impl<T: Copy> Window<T> {
    /// An empty window that spans `duration` at `sample_rate` samples per second.
    pub fn with_duration(duration: Duration, sample_rate: u32) -> (window: Self)
        ensures
            window@ == Seq::<T>::empty(),
            window.limit() == saturated(
                span_samples(
                    whole_seconds(duration) as nat,
                    subsecond_nanos(duration) as nat,
                    sample_rate as nat,
                ),
            ),
            window.within_capacity(),
    {
        Window { buffer: VecDeque::new(), size: samples_spanning(duration, sample_rate) }
    }

    /// An empty window of `capacity` samples.
    pub fn with_capacity(capacity: usize) -> (window: Self)
        ensures
            window@ == Seq::<T>::empty(),
            window.limit() == capacity,
            window.within_capacity(),
    {
        Window { buffer: VecDeque::new(), size: capacity }
    }

    /// The number of samples the window holds once it is full.
    pub fn capacity(&self) -> (capacity: usize)
        ensures
            capacity == self.limit(),
    {
        self.size
    }

    /// The number of samples held now.
    pub fn len(&self) -> (len: usize)
        ensures
            len == self@.len(),
    {
        self.buffer.len()
    }

    /// Whether the window holds no sample.
    pub fn is_empty(&self) -> (empty: bool)
        ensures
            empty == (self@.len() == 0),
    {
        self.buffer.len() == 0
    }

    /// Whether the window is full. A window of capacity zero always is.
    pub fn is_ready(&self) -> (ready: bool)
        ensures
            ready == (self@.len() == self.limit()),
    {
        self.buffer.len() == self.size
    }

    /// A copy of the samples held, oldest first.
    pub fn samples(&self) -> (copy: Vec<T>)
        ensures
            copy@ == self@,
    {
        let count: usize = self.buffer.len();
        let mut copy: Vec<T> = Vec::new();
        let mut i: usize = 0;
        while i < count
            invariant
                i <= count,
                count == self.buffer@.len(),
                copy@ == self.buffer@.subrange(0, i as int),
            decreases count - i,
        {
            copy.push(self.buffer[i]);
            i += 1;
        }
        assert(self.buffer@.subrange(0, count as int) == self.buffer@);
        copy
    }

    /// The sample at `index`, counted from the oldest; nothing behind the newest.
    pub fn get(&self, index: usize) -> (sample: Option<T>)
        ensures
            sample == if index < self@.len() {
                Some(self@[index as int])
            } else {
                None
            },
    {
        if index < self.buffer.len() {
            Some(self.buffer[index])
        } else {
            None
        }
    }

    /// The loudness of the window as `rms` measures it, once the window is full;
    /// nothing while it is still filling.
    pub fn calculate_rms<R, Rms: Fn(&Window<T>) -> R>(&self, rms: Rms) -> (level: Option<R>)
        requires
            self@.len() == self.limit() ==> rms.requires((self,)),
        ensures
            level is Some <==> self@.len() == self.limit(),
            level is Some ==> rms.ensures((self,), level->0),
    {
        if self.is_ready() {
            Some(rms(self))
        } else {
            None
        }
    }

    /// The loudness of the window as `rms` measures it, turned into decibels by
    /// `decibels`, once the window is full; nothing while it is still filling.
    pub fn calculate_dbfs<R, D, Rms: Fn(&Window<T>) -> R, Decibels: Fn(R) -> D>(
        &self,
        rms: Rms,
        decibels: Decibels,
    ) -> (level: Option<D>)
        requires
            self@.len() == self.limit() ==> rms.requires((self,)),
            forall|linear: R| rms.ensures((self,), linear) ==> decibels.requires((linear,)),
        ensures
            level is Some <==> self@.len() == self.limit(),
            level is Some ==> exists|linear: R|
                rms.ensures((self,), linear) && decibels.ensures((linear,), level->0),
    {
        match self.calculate_rms(rms) {
            Some(linear) => Some(decibels(linear)),
            None => None,
        }
    }

    /// The spectrum of the window, once it is full; nothing while it is still filling.
    ///
    /// A window of `n` samples has the bins `0` to `n / 2 - 1`, in this order. Each
    /// comes with its index `k`, which stands for the frequency `k * sample_rate / n`,
    /// and with what `magnitude` measures for that bin.
    pub fn calculate_frequencies<R, Magnitude: Fn(usize, &Window<T>) -> R>(
        &self,
        magnitude: Magnitude,
    ) -> (bins: Option<Vec<(usize, R)>>)
        requires
            self@.len() == self.limit() ==> forall|k: usize|
                k < self@.len() / 2 ==> magnitude.requires((k, self)),
        ensures
            bins is Some <==> self@.len() == self.limit(),
            bins is Some ==> bins->0@.len() == self@.len() / 2,
            bins is Some ==> forall|k: int|
                0 <= k < bins->0@.len() ==> (#[trigger] bins->0@[k]).0 == k && magnitude.ensures(
                    (k as usize, self),
                    bins->0@[k].1,
                ),
    {
        if !self.is_ready() {
            return None;
        }
        let half: usize = self.buffer.len() / 2;
        let mut bins: Vec<(usize, R)> = Vec::new();
        let mut k: usize = 0;
        while k < half
            invariant
                k <= half,
                half == self@.len() / 2,
                bins@.len() == k,
                forall|j: usize| j < self@.len() / 2 ==> magnitude.requires((j, self)),
                forall|j: int|
                    0 <= j < k ==> (#[trigger] bins@[j]).0 == j && magnitude.ensures(
                        (j as usize, self),
                        bins@[j].1,
                    ),
            decreases half - k,
        {
            let found: R = magnitude(k, self);
            bins.push((k, found));
            k += 1;
        }
        Some(bins)
    }

    /// Feeds `samples` to the window, in order.
    pub fn add_samples(&mut self, samples: &[T])
        ensures
            final(self).limit() == old(self).limit(),
            final(self)@ == retained(old(self)@, samples@, old(self).limit() as nat),
            final(self).within_capacity(),
    {
        let count: usize = samples.len();
        if count > self.size {
            self.buffer.clear();
            let first: usize = count - self.size;
            let mut i: usize = first;
            while i < count
                invariant
                    first <= i <= count,
                    count == samples@.len(),
                    first == count - self.size,
                    self.size == old(self).size,
                    self.buffer@ == samples@.subrange(first as int, i as int),
                decreases count - i,
            {
                self.buffer.push_back(samples[i]);
                i += 1;
            }
            return ;
        }
        let held: usize = self.buffer.len();
        if held > self.size - count {
            let excess: usize = held - (self.size - count);
            let mut gone: usize = 0;
            while gone < excess
                invariant
                    gone <= excess <= held,
                    held == old(self).buffer@.len(),
                    self.size == old(self).size,
                    self.buffer@ == old(self).buffer@.subrange(gone as int, held as int),
                decreases excess - gone,
            {
                self.buffer.pop_front();
                gone += 1;
            }
        }
        let ghost kept = self.buffer@;
        let mut i: usize = 0;
        while i < count
            invariant
                i <= count,
                count == samples@.len(),
                self.size == old(self).size,
                kept.len() + count <= self.size,
                self.buffer@ == kept + samples@.subrange(0, i as int),
            decreases count - i,
        {
            self.buffer.push_back(samples[i]);
            i += 1;
        }
        assert(samples@.subrange(0, count as int) == samples@);
    }
}

} // verus!
