//! The bounded work queue: inbound requests are enqueued concurrently and a
//! single worker drains them strictly in arrival order, one at a time.

use vstd::prelude::*;
use crate::video::VideoRequest;

verus! {

/// The administrative bounds the configured capacity is clamped into.
pub open spec fn min_capacity() -> int {
    1
}

pub open spec fn max_capacity() -> int {
    256
}

/// The capacity actually used for a configured value.
pub open spec fn clamped_capacity(requested: int) -> int {
    if requested < min_capacity() {
        min_capacity()
    } else if requested > max_capacity() {
        max_capacity()
    } else {
        requested
    }
}

/// Rejection of an enqueue attempt: the queue is at capacity. Backpressure
/// goes to the caller; the attempt never blocks.
#[derive(Clone, Copy, Debug, PartialEq, Eq, Structural)]
pub enum EnqueueError {
    QueueFull,
}

/// A bounded first-in-first-out queue of video requests. The view is the
/// sequence of queued video ids, front first. The capacity never changes
/// after creation.
pub struct WorkQueue {
    items: Vec<VideoRequest>,
    capacity: usize,
}

impl View for WorkQueue {
    type V = Seq<Seq<char>>;

    closed spec fn view(&self) -> Seq<Seq<char>> {
        Seq::new(self.items@.len(), |i: int| self.items@[i]@)
    }
}

impl WorkQueue {
    /// The fixed capacity.
    pub closed spec fn cap(&self) -> int {
        self.capacity as int
    }

    /// Well-formed: the capacity is inside the administrative range and the
    /// queue never holds more than it.
    pub open spec fn wf(&self) -> bool {
        min_capacity() <= self.cap() <= max_capacity() && self@.len() <= self.cap()
    }

    /// An empty queue whose capacity is `requested` clamped into the
    /// administrative range.
    pub fn new(requested: usize) -> (q: WorkQueue)
        ensures
            q.wf(),
            q@ == Seq::<Seq<char>>::empty(),
            q.cap() == clamped_capacity(requested as int),
    {
        let capacity: usize = if requested < 1 {
            1
        } else if requested > 256 {
            256
        } else {
            requested
        };
        let q = WorkQueue { items: Vec::new(), capacity };
        proof {
            assert(q@ =~= Seq::<Seq<char>>::empty());
        }
        q
    }

    /// How many requests are queued.
    pub fn len(&self) -> (n: usize)
        ensures
            n == self@.len(),
    {
        self.items.len()
    }

    /// The capacity.
    pub fn capacity(&self) -> (n: usize)
        ensures
            n == self.cap(),
    {
        self.capacity
    }

    /// Non-blocking enqueue: succeeds and appends at the back exactly while
    /// the count is below capacity; at capacity it fails immediately with a
    /// queue-full rejection and changes nothing.
    pub fn try_enqueue(&mut self, request: VideoRequest) -> (r: Result<(), EnqueueError>)
        requires
            old(self).wf(),
        ensures
            final(self).wf(),
            final(self).cap() == old(self).cap(),
            old(self)@.len() < old(self).cap() ==> r == Result::<(), EnqueueError>::Ok(())
                && final(self)@ == old(self)@.push(request@),
            old(self)@.len() >= old(self).cap() ==> r == Result::<(), EnqueueError>::Err(
                EnqueueError::QueueFull,
            ) && final(self)@ == old(self)@,
    {
        if self.items.len() < self.capacity {
            self.items.push(request);
            proof {
                assert(self@ =~= old(self)@.push(request@));
            }
            Ok(())
        } else {
            proof {
                assert(self@ =~= old(self)@);
            }
            Err(EnqueueError::QueueFull)
        }
    }

    /// Take the request at the front, if any: the queue yields requests in
    /// exactly the order they were enqueued.
    pub fn dequeue(&mut self) -> (r: Option<VideoRequest>)
        requires
            old(self).wf(),
        ensures
            final(self).wf(),
            final(self).cap() == old(self).cap(),
            old(self)@.len() == 0 ==> r is None && final(self)@ == old(self)@,
            old(self)@.len() > 0 ==> r is Some && r->0@ == old(self)@[0] && final(self)@ == old(
                self,
            )@.subrange(1, old(self)@.len() as int),
    {
        if self.items.len() == 0 {
            proof {
                assert(self@ =~= old(self)@);
            }
            None
        } else {
            let request = self.items.remove(0);
            proof {
                assert(self@ =~= old(self)@.subrange(1, old(self)@.len() as int));
            }
            Some(request)
        }
    }
}

/// What the queue holds once the first `k` of its requests have been taken.
pub open spec fn after_dequeues(contents: Seq<Seq<char>>, k: int) -> Seq<Seq<char>> {
    contents.subrange(k, contents.len() as int)
}

/// First-in-first-out processing order: however many requests have already
/// been taken, the next dequeue yields exactly the next enqueued request,
/// so requests R1..Rn are processed in exactly their enqueue order.
pub proof fn lemma_fifo_processing_order(contents: Seq<Seq<char>>, k: int)
    requires
        0 <= k < contents.len(),
    ensures
        after_dequeues(contents, k).len() > 0,
        after_dequeues(contents, k)[0] == contents[k],
        after_dequeues(contents, k).subrange(
            1,
            after_dequeues(contents, k).len() as int,
        ) == after_dequeues(contents, k + 1),
{
    assert(after_dequeues(contents, k).subrange(1, after_dequeues(contents, k).len() as int)
        =~= after_dequeues(contents, k + 1));
}

/// An enqueue that succeeds never reorders what is already queued.
pub proof fn lemma_enqueue_preserves_order(contents: Seq<Seq<char>>, added: Seq<char>, i: int)
    requires
        0 <= i < contents.len(),
    ensures
        contents.push(added)[i] == contents[i],
        contents.push(added)[contents.len() as int] == added,
{
}

/// The wire answer for an enqueue attempt: success is an empty-bodied OK;
/// a full queue is a service-unavailable rejection with a short plain-text
/// reason.
pub fn enqueue_response(r: &Result<(), EnqueueError>) -> (resp: (u16, &'static str))
    ensures
        r is Ok ==> resp.0 == 200 && resp.1@ == ""@,
        r is Err ==> resp.0 == 503 && resp.1@
            == "Cannot enqueue: Video request queue capacity exceeded!"@,
{
    match r {
        Ok(_) => (200, ""),
        Err(EnqueueError::QueueFull) => (
            503,
            "Cannot enqueue: Video request queue capacity exceeded!",
        ),
    }
}

} // verus!
