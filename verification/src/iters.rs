//! A sequence walker that, once its items run out, keeps yielding the last
//! one forever: the shape of the submission-status backoff schedule.

use vstd::prelude::*;

verus! {

/// What a `RepeatLast` over `items` yields on its `index`-th call.
pub open spec fn spec_repeat_last(items: Seq<u64>, index: int) -> Option<u64> {
    if items.len() == 0 {
        None
    } else if index < items.len() {
        Some(items[index])
    } else {
        Some(items.last())
    }
}

/// Yields its items in order, then repeats the last one forever. Over an
/// empty item list it never yields anything.
pub struct RepeatLast {
    items: Vec<u64>,
    index: usize,
}

impl RepeatLast {
    /// The items walked over.
    pub closed spec fn spec_items(&self) -> Seq<u64> {
        self.items@
    }

    /// How many values were yielded so far.
    pub closed spec fn spec_index(&self) -> int {
        self.index as int
    }

    /// Start walking `items`.
    pub fn new(items: Vec<u64>) -> (r: RepeatLast)
        ensures
            r.spec_items() == items@,
            r.spec_index() == 0,
    {
        RepeatLast { items, index: 0 }
    }

    /// The next value: the item at the current position, or the last item
    /// once the position has run past the end.
    pub fn next(&mut self) -> (r: Option<u64>)
        requires
            old(self).spec_index() < usize::MAX,
        ensures
            r == spec_repeat_last(old(self).spec_items(), old(self).spec_index()),
            final(self).spec_items() == old(self).spec_items(),
            final(self).spec_index() == old(self).spec_index() + 1,
    {
        let r = if self.items.len() == 0 {
            None
        } else if self.index < self.items.len() {
            Some(self.items[self.index])
        } else {
            Some(self.items[self.items.len() - 1])
        };
        self.index += 1;
        r
    }
}

/// The backoff delays, in seconds, between submission-status polls:
/// exponential at first, then flat.
pub fn backoff_wait_times() -> (r: Vec<u64>)
    ensures
        r@ == seq![1u64, 2u64, 3u64, 5u64, 8u64],
{
    let mut v: Vec<u64> = Vec::new();
    v.push(1);
    v.push(2);
    v.push(3);
    v.push(5);
    v.push(8);
    proof {
        assert(v@ =~= seq![1u64, 2u64, 3u64, 5u64, 8u64]);
    }
    v
}

/// The delay before the `i`-th poll (counted from zero): 1, 2, 3, 5, 8
/// seconds, and 8 seconds for every later poll.
pub open spec fn spec_poll_delay(i: int) -> u64 {
    if i < 5 {
        seq![1u64, 2u64, 3u64, 5u64, 8u64][if i < 0 {
            0
        } else {
            i
        }]
    } else {
        8u64
    }
}

/// Walking the backoff schedule yields exactly the documented delays.
pub proof fn lemma_backoff_schedule(i: int)
    requires
        i >= 0,
    ensures
        spec_repeat_last(seq![1u64, 2u64, 3u64, 5u64, 8u64], i) == Some(spec_poll_delay(i)),
{
}

} // verus!
