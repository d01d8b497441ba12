//! The sliding window of recent audio samples.

use std::collections::VecDeque;
use vstd::prelude::*;

verus! {

/// Samples per second of the capture stream.
pub const SAMPLE_RATE: u32 = 48000;

/// Samples the window keeps once it has been refilled: a tenth of a second.
pub const BUFFER_CAPACITY: usize = 4800;

/// The `capacity` most recent elements of `s`, in arrival order.
pub open spec fn latest<T>(s: Seq<T>, capacity: nat) -> Seq<T> {
    if s.len() <= capacity {
        s
    } else {
        s.subrange(s.len() - capacity, s.len() as int)
    }
}

/// What a window that starts out as `initial` holds after one refill for
/// each entry of `batches`, in order.
pub open spec fn after_refills<T>(initial: Seq<T>, batches: Seq<Seq<T>>, capacity: nat) -> Seq<T>
    decreases batches.len(),
{
    if batches.len() == 0 {
        initial
    } else {
        latest(after_refills(initial, batches.drop_last(), capacity) + batches.last(), capacity)
    }
}

/// Every sample that ever entered the window, in arrival order: the initial
/// contents, then each batch in turn.
pub open spec fn arrivals<T>(initial: Seq<T>, batches: Seq<Seq<T>>) -> Seq<T>
    decreases batches.len(),
{
    if batches.len() == 0 {
        initial
    } else {
        arrivals(initial, batches.drop_last()) + batches.last()
    }
}

/// Whether `tail` is what is left of `whole` once some front part is gone.
pub open spec fn is_suffix_of<T>(tail: Seq<T>, whole: Seq<T>) -> bool {
    tail.len() <= whole.len() && tail == whole.skip(whole.len() - tail.len())
}

/// Cutting a window down before a batch arrives loses nothing that cutting
/// it down afterwards would have kept.
pub proof fn lemma_latest_absorbs<T>(s: Seq<T>, batch: Seq<T>, capacity: nat)
    ensures
        latest(latest(s, capacity) + batch, capacity) == latest(s + batch, capacity),
{
}

/// A window never holds more than its capacity once it has been refilled,
/// nor before that if it started within its capacity.
pub proof fn lemma_refills_stay_within_capacity<T>(
    initial: Seq<T>,
    batches: Seq<Seq<T>>,
    capacity: nat,
)
    requires
        batches.len() > 0 || initial.len() <= capacity,
    ensures
        after_refills(initial, batches, capacity).len() <= capacity,
{
}

/// Refills never reorder samples: after any number of refills the window
/// holds a contiguous tail of everything that ever arrived, and once it has
/// been refilled that tail is the `capacity` most recent arrivals.
pub proof fn lemma_refills_keep_latest_arrivals<T>(
    initial: Seq<T>,
    batches: Seq<Seq<T>>,
    capacity: nat,
)
    ensures
        is_suffix_of(after_refills(initial, batches, capacity), arrivals(initial, batches)),
        batches.len() > 0 ==> after_refills(initial, batches, capacity) == latest(
            arrivals(initial, batches),
            capacity,
        ),
        latest(after_refills(initial, batches, capacity), capacity) == latest(
            arrivals(initial, batches),
            capacity,
        ),
    decreases batches.len(),
{
    if batches.len() == 0 {
        assert(initial.skip(0) =~= initial);
    } else {
        let earlier = batches.drop_last();
        let kept = after_refills(initial, earlier, capacity);
        let all = arrivals(initial, earlier);
        lemma_refills_keep_latest_arrivals(initial, earlier, capacity);
        lemma_latest_absorbs(kept, batches.last(), capacity);
        lemma_latest_absorbs(all, batches.last(), capacity);
        let now = after_refills(initial, batches, capacity);
        let whole = arrivals(initial, batches);
        assert(now =~= whole.skip(whole.len() - now.len()));
    }
}

/// A refill in which nothing arrives leaves a window that is within its
/// capacity exactly as it was.
pub proof fn lemma_empty_refill_changes_nothing<T>(window: Seq<T>, capacity: nat)
    requires
        window.len() <= capacity,
    ensures
        latest(window + Seq::<T>::empty(), capacity) == window,
{
}

/// A window of recent samples, oldest first.
///
/// The window is created empty or pre-filled beyond its capacity; every
/// refill appends what arrived and then evicts from the front until at most
/// `capacity` samples are left.
pub struct AudioBuffer<T> {
    samples: VecDeque<T>,
    capacity: usize,
}

impl<T> View for AudioBuffer<T> {
    type V = Seq<T>;

    closed spec fn view(&self) -> Seq<T> {
        self.samples@
    }
}

impl<T: Copy> AudioBuffer<T> {
    /// The number of samples the window keeps after a refill.
    pub closed spec fn spec_capacity(&self) -> usize {
        self.capacity
    }

    /// Whether the window holds no more than its capacity.
    pub open spec fn within_capacity(&self) -> bool {
        self@.len() <= self.spec_capacity()
    }

    /// An empty window that keeps `capacity` samples.
    pub fn new(capacity: usize) -> (buffer: Self)
        ensures
            buffer@ == Seq::<T>::empty(),
            buffer.spec_capacity() == capacity,
    {
        AudioBuffer { samples: VecDeque::new(), capacity }
    }

    /// A window that keeps `capacity` samples and starts out holding
    /// `2 * capacity` copies of `fill`.
    pub fn prefilled(capacity: usize, fill: T) -> (buffer: Self)
        requires
            2 * capacity <= usize::MAX,
        ensures
            buffer@ == Seq::new(2 * capacity as nat, |i: int| fill),
            buffer.spec_capacity() == capacity,
    {
        let total: usize = 2 * capacity;
        let mut samples: VecDeque<T> = VecDeque::with_capacity(total);
        let mut i: usize = 0;
        while i < total
            invariant
                i <= total,
                samples@ == Seq::new(i as nat, |k: int| fill),
            decreases total - i,
        {
            samples.push_back(fill);
            i += 1;
        }
        AudioBuffer { samples, capacity }
    }

    /// The number of samples the window keeps after a refill.
    #[verifier::when_used_as_spec(spec_capacity)]
    pub fn capacity(&self) -> (capacity: usize)
        ensures
            capacity == self.spec_capacity(),
    {
        self.capacity
    }

    /// The number of samples held right now.
    pub fn len(&self) -> (len: usize)
        ensures
            len == self@.len(),
    {
        self.samples.len()
    }

    /// Whether the window holds no sample.
    pub fn is_empty(&self) -> (empty: bool)
        ensures
            empty == (self@.len() == 0),
    {
        self.samples.len() == 0
    }

    /// The sample at `index`, counted from the oldest, if there is one.
    pub fn get(&self, index: usize) -> (sample: Option<T>)
        ensures
            sample == if index < self@.len() {
                Some(self@[index as int])
            } else {
                None
            },
    {
        if index < self.samples.len() {
            Some(self.samples[index])
        } else {
            None
        }
    }

    /// The samples held right now, oldest first.
    pub fn samples(&self) -> (samples: &VecDeque<T>)
        ensures
            samples@ == self@,
    {
        &self.samples
    }

    /// Evicts from the front until at most `capacity` samples are left.
    fn trim(&mut self)
        ensures
            final(self)@ == latest(old(self)@, old(self).spec_capacity() as nat),
            final(self).spec_capacity() == old(self).spec_capacity(),
    {
        let ghost before = self.samples@;
        let ghost mut evicted: int = 0;
        while self.samples.len() > self.capacity
            invariant
                self.capacity == old(self).capacity,
                before == old(self).samples@,
                0 <= evicted <= before.len(),
                evicted > 0 ==> self.samples@.len() >= self.capacity,
                self.samples@ == before.subrange(evicted, before.len() as int),
            decreases self.samples@.len(),
        {
            self.samples.pop_front();
            proof {
                evicted = evicted + 1;
            }
        }
    }

    /// Appends `incoming` in order, then keeps only the `capacity` most
    /// recent samples.
    pub fn absorb(&mut self, incoming: &[T])
        ensures
            final(self)@ == latest(old(self)@ + incoming@, old(self).spec_capacity() as nat),
            final(self).spec_capacity() == old(self).spec_capacity(),
            final(self).within_capacity(),
    {
        let n: usize = incoming.len();
        let mut i: usize = 0;
        while i < n
            invariant
                n == incoming@.len(),
                i <= n,
                self.capacity == old(self).capacity,
                self.samples@ == old(self).samples@ + incoming@.subrange(0, i as int),
            decreases n - i,
        {
            self.samples.push_back(incoming[i]);
            i += 1;
        }
        self.trim();
    }
}

} // verus!
