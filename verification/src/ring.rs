//! A fixed-capacity sliding window of samples, oldest first.

use vstd::prelude::*;

verus! {

/// A window of `capacity` slots that has never been written: all zero.
pub open spec fn zeros(capacity: nat) -> Seq<u32> {
    Seq::new(capacity, |i: int| 0u32)
}

/// What `window` holds after `sample` has been appended: every sample has
/// moved one slot towards the oldest end, the oldest one is gone, and `sample`
/// sits in the newest slot. A window without slots stays empty.
pub open spec fn shifted_in(window: Seq<u32>, sample: u32) -> Seq<u32> {
    if window.len() == 0 {
        window
    } else {
        window.subrange(1, window.len() as int).push(sample)
    }
}

/// What `window` holds after each of `samples` has been appended in turn.
pub open spec fn shifted_in_all(window: Seq<u32>, samples: Seq<u32>) -> Seq<u32>
    decreases samples.len(),
{
    if samples.len() == 0 {
        window
    } else {
        shifted_in(shifted_in_all(window, samples.drop_last()), samples.last())
    }
}

/// The last `count` elements of `history`.
pub open spec fn tail(history: Seq<u32>, count: nat) -> Seq<u32>
    recommends
        count <= history.len(),
{
    history.subrange(history.len() - count, history.len() as int)
}

/// Appending any run of samples to a window leaves exactly the newest
/// `window.len()` elements of the old contents followed by the samples, in
/// the order in which they came.
pub proof fn lemma_window_keeps_newest(window: Seq<u32>, samples: Seq<u32>)
    ensures
        shifted_in_all(window, samples) == tail(window + samples, window.len()),
    decreases samples.len(),
{
    if samples.len() == 0 {
        assert(window + samples =~= window);
        assert(tail(window, window.len()) =~= window);
    } else {
        let earlier = samples.drop_last();
        lemma_window_keeps_newest(window, earlier);
        assert(window + samples =~= (window + earlier).push(samples.last()));
        assert(shifted_in(tail(window + earlier, window.len()), samples.last()) =~= tail(
            window + samples,
            window.len(),
        ));
    }
}

/// A series that starts out zeroed holds, after any run of pushes, exactly the
/// last `capacity` elements of its zeros followed by the pushed samples,
/// oldest first.
pub proof fn lemma_pushes_keep_last(capacity: nat, samples: Seq<u32>)
    ensures
        shifted_in_all(zeros(capacity), samples) == tail(zeros(capacity) + samples, capacity),
        shifted_in_all(zeros(capacity), samples).len() == capacity,
{
    lemma_window_keeps_newest(zeros(capacity), samples);
}

/// A bounded history of samples. Slot 0 is the oldest, the last slot the
/// newest; the number of slots never changes.
#[derive(Clone, Debug, PartialEq, Eq)]
pub struct RingSeries {
    data: Vec<u32>,
}

impl View for RingSeries {
    type V = Seq<u32>;

    closed spec fn view(&self) -> Seq<u32> {
        self.data@
    }
}

impl RingSeries {
    /// A series of `capacity` slots, each holding zero.
    pub fn new(capacity: usize) -> (series: Self)
        ensures
            series@ == zeros(capacity as nat),
    {
        let mut data: Vec<u32> = Vec::new();
        let mut filled: usize = 0;
        while filled < capacity
            invariant
                filled <= capacity,
                data@ == zeros(filled as nat),
            decreases capacity - filled,
        {
            data.push(0);
            filled = filled + 1;
        }
        RingSeries { data }
    }

    /// The number of slots.
    pub fn capacity(&self) -> (capacity: usize)
        ensures
            capacity == self@.len(),
    {
        self.data.len()
    }

    /// Appends `sample` as the newest one and drops the oldest.
    pub fn push(&mut self, sample: u32)
        ensures
            final(self)@ == shifted_in(old(self)@, sample),
        no_unwind
    {
        let slots = self.data.len();
        if slots == 0 {
            return ;
        }
        let mut slot: usize = 1;
        while slot < slots
            invariant
                1 <= slot <= slots,
                slots == old(self).data@.len(),
                self.data@.len() == slots,
                forall|i: int| 0 <= i < slot - 1 ==> self.data@[i] == old(self).data@[i + 1],
                forall|i: int| slot - 1 <= i < slots ==> self.data@[i] == old(self).data@[i],
            decreases slots - slot,
        {
            let moved = self.data[slot];
            self.data[slot - 1] = moved;
            slot = slot + 1;
        }
        self.data[slots - 1] = sample;
    }

    /// Appends the newest sample once more and drops the oldest: the series
    /// holds its last value for one more step.
    pub fn repeat_newest(&mut self)
        ensures
            final(self)@ == shifted_in(old(self)@, old(self)@.last()),
        no_unwind
    {
        let slots = self.data.len();
        if slots > 0 {
            let newest = self.data[slots - 1];
            self.push(newest);
        }
    }

    /// The newest sample, or `None` for a series without slots.
    pub fn newest(&self) -> (newest: Option<u32>)
        ensures
            newest == if self@.len() == 0 {
                None
            } else {
                Some(self@.last())
            },
    {
        let slots = self.data.len();
        if slots == 0 {
            None
        } else {
            Some(self.data[slots - 1])
        }
    }

    /// The samples, oldest first.
    pub fn as_slice(&self) -> (samples: &[u32])
        ensures
            samples@ == self@,
    {
        self.data.as_slice()
    }
}

} // verus!
