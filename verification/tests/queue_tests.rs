use ytmusicd::queue::{enqueue_response, EnqueueError, WorkQueue};
use ytmusicd::video::VideoRequest;

fn req(id: &str) -> VideoRequest {
    VideoRequest { youtube_id: String::from(id) }
}

#[test]
fn capacity_is_clamped() {
    assert_eq!(WorkQueue::new(0).capacity(), 1);
    assert_eq!(WorkQueue::new(16).capacity(), 16);
    assert_eq!(WorkQueue::new(1000).capacity(), 256);
}

#[test]
fn enqueue_succeeds_below_capacity_and_fails_at_capacity() {
    let mut q = WorkQueue::new(2);
    assert!(q.try_enqueue(req("a")).is_ok());
    assert!(q.try_enqueue(req("b")).is_ok());
    // the capacity + 1-th concurrent enqueue fails immediately
    assert_eq!(q.try_enqueue(req("c")), Err(EnqueueError::QueueFull));
    assert_eq!(q.len(), 2);
    // draining one slot lets the next enqueue through again
    assert_eq!(q.dequeue().unwrap().youtube_id, "a");
    assert!(q.try_enqueue(req("c")).is_ok());
}

#[test]
fn requests_come_out_in_enqueue_order() {
    let mut q = WorkQueue::new(8);
    for id in ["r1", "r2", "r3", "r4"] {
        assert!(q.try_enqueue(req(id)).is_ok());
    }
    assert_eq!(q.dequeue().unwrap().youtube_id, "r1");
    assert_eq!(q.dequeue().unwrap().youtube_id, "r2");
    assert_eq!(q.dequeue().unwrap().youtube_id, "r3");
    assert_eq!(q.dequeue().unwrap().youtube_id, "r4");
    assert!(q.dequeue().is_none());
}

#[test]
fn enqueue_wire_responses() {
    let ok = enqueue_response(&Ok(()));
    assert_eq!(ok.0, 200);
    assert_eq!(ok.1, "");
    let full = enqueue_response(&Err(EnqueueError::QueueFull));
    assert_eq!(full.0, 503);
    assert_eq!(full.1, "Cannot enqueue: Video request queue capacity exceeded!");
}
