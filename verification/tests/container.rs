use shiny_song_tools::container::{
    BoundedQueue, LatestCell, SendOutcome, SharedSlot, SlotAccess, SlotBusy,
};
use std::sync::Arc;

#[test]
fn latest_cell_overwrites_and_reports_replacement() {
    let mut cell: LatestCell<u32> = LatestCell::new();
    assert_eq!(cell.try_send(1), SendOutcome::Accepted);
    assert_eq!(cell.try_send(2), SendOutcome::Replaced);
    assert_eq!(cell.try_read(), Some(2));
    assert_eq!(cell.take(), Some(2));
    assert_eq!(cell.try_read(), None);
}

#[test]
fn bounded_queue_is_fifo_and_counts_full() {
    let mut queue: BoundedQueue<u8, 2> = BoundedQueue::new();
    assert_eq!(queue.try_send(1), SendOutcome::Accepted);
    assert_eq!(queue.try_send(2), SendOutcome::Accepted);
    assert_eq!(queue.try_send(3), SendOutcome::Full);
    assert_eq!(queue.len(), 2);
    assert_eq!(queue.try_read(), Some(1), "FIFO order preserved");
    assert_eq!(queue.try_read(), Some(2));
    assert_eq!(queue.try_read(), None);
}

#[test]
fn shared_slot_replaces_arc_and_read_clones() {
    let mut slot: SharedSlot<String> = SharedSlot::new();
    assert_eq!(
        slot.try_send(SlotAccess::Free, Arc::new("a".to_owned())),
        Ok(SendOutcome::Accepted)
    );
    let first = slot.try_read(SlotAccess::Free).expect("value present");
    assert_eq!(
        slot.try_send(SlotAccess::Free, Arc::new("b".to_owned())),
        Ok(SendOutcome::Replaced)
    );
    assert_eq!((*first).as_str(), "a", "old Arc stays alive for readers");
    drop(first);
    assert_eq!(
        (*slot.try_read(SlotAccess::Free).expect("value")).as_str(),
        "b"
    );
    assert!(slot.take(SlotAccess::Free).is_some());
    assert!(slot.try_read(SlotAccess::Free).is_none());
}

#[test]
fn queue_is_empty_again_after_it_was_drained() {
    let mut queue: BoundedQueue<u8, 3> = BoundedQueue::new();
    assert!(queue.is_empty());
    for value in 0..3 {
        assert!(queue.try_send(value).is_stored());
    }
    assert!(!queue.try_send(9).is_stored(), "the newest is refused");
    assert!(!queue.is_empty());
    assert_eq!(queue.try_read(), Some(0));
    assert_eq!(queue.try_send(7), SendOutcome::Accepted);
    assert_eq!(queue.try_read(), Some(1));
    assert_eq!(queue.try_read(), Some(2));
    assert_eq!(queue.try_read(), Some(7));
    assert!(queue.is_empty());
    assert_eq!(queue.len(), 0);
}

#[test]
fn contended_slot_is_left_alone() {
    let mut slot: SharedSlot<u32> = SharedSlot::new();
    assert_eq!(
        slot.try_send(SlotAccess::Contended, Arc::new(1)),
        Err(SlotBusy)
    );
    assert!(!slot.is_set(SlotAccess::Free));
    assert_eq!(
        slot.try_send(SlotAccess::Free, Arc::new(2)),
        Ok(SendOutcome::Accepted)
    );
    assert!(slot.try_read(SlotAccess::Contended).is_none());
    assert!(slot.take(SlotAccess::Contended).is_none());
    assert_eq!(slot.try_read(SlotAccess::Free).as_deref(), Some(&2));
}
