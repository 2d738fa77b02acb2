//! The lock-free containers below the mailboxes.
//!
//! A raw container pairs the container itself with the contents it holds, so
//! that contracts can speak of them. The functions that touch the container
//! are trusted to keep the two together.

use crossbeam_queue::ArrayQueue;
use crossbeam_utils::atomic::AtomicCell;
use std::sync::Arc;

use vstd::prelude::*;

verus! {

#[verifier::external_type_specification]
#[verifier::external_body]
#[verifier::reject_recursive_types(T)]
pub struct ExArrayQueue<T>(crossbeam_queue::ArrayQueue<T>);

#[verifier::external_type_specification]
#[verifier::external_body]
#[verifier::reject_recursive_types(T)]
pub struct ExAtomicCell<T>(crossbeam_utils::atomic::AtomicCell<T>);

/// A bounded queue and its contents, oldest first.
#[verifier::reject_recursive_types(T)]
pub struct RawQueue<T> {
    queue: ArrayQueue<T>,
    items: Ghost<Seq<T>>,
    limit: Ghost<nat>,
}

impl<T> RawQueue<T> {
    /// What the queue holds, oldest first.
    pub closed spec fn items(&self) -> Seq<T> {
        self.items@
    }

    /// How many items the queue can hold.
    pub closed spec fn limit(&self) -> nat {
        self.limit@
    }
}

/// `ArrayQueue::new`: an empty queue of the given capacity. It panics on a
/// capacity of zero, and on one whose successor has no next power of two. That
/// memory for the slots can be had is taken for granted.
#[verifier::external_body]
pub(crate) fn queue_new<T>(capacity: usize) -> (r: RawQueue<T>)
    requires
        0 < capacity < usize::MAX / 2,
    ensures
        r.items() == Seq::<T>::empty(),
        r.limit() == capacity,
{
    RawQueue { queue: ArrayQueue::new(capacity), items: Ghost(Seq::empty()), limit: Ghost(capacity as nat) }
}

/// `ArrayQueue::push`: appends the value, or hands it back when the queue
/// holds as many items as its capacity.
#[verifier::external_body]
pub(crate) fn queue_push<T>(raw: &mut RawQueue<T>, value: T) -> (r: Result<(), T>)
    ensures
        final(raw).limit() == old(raw).limit(),
        old(raw).items().len() < old(raw).limit() ==> r is Ok,
        old(raw).items().len() >= old(raw).limit() ==> r is Err && r->Err_0 == value,
        r is Ok ==> final(raw).items() == old(raw).items().push(value),
        r is Err ==> final(raw).items() == old(raw).items(),
{
    raw.queue.push(value)
}

/// `ArrayQueue::pop`: removes and returns the oldest item, if there is one.
#[verifier::external_body]
pub(crate) fn queue_pop<T>(raw: &mut RawQueue<T>) -> (r: Option<T>)
    ensures
        final(raw).limit() == old(raw).limit(),
        old(raw).items().len() == 0 ==> r is None,
        old(raw).items().len() > 0 ==> r == Some(old(raw).items()[0]),
        r is None ==> final(raw).items() == old(raw).items(),
        r is Some ==> final(raw).items() == old(raw).items().skip(1),
{
    raw.queue.pop()
}

/// `ArrayQueue::len`: the number of items in the queue.
#[verifier::external_body]
pub(crate) fn queue_len<T>(raw: &RawQueue<T>) -> (r: usize)
    ensures
        r == raw.items().len(),
{
    raw.queue.len()
}

/// `ArrayQueue::is_empty`: whether the queue holds no items.
#[verifier::external_body]
pub(crate) fn queue_is_empty<T>(raw: &RawQueue<T>) -> (r: bool)
    ensures
        r == (raw.items().len() == 0),
{
    raw.queue.is_empty()
}

/// An atomic cell and the value in it.
#[verifier::reject_recursive_types(T)]
pub struct RawCell<T> {
    cell: AtomicCell<T>,
    value: Ghost<T>,
}

impl<T> RawCell<T> {
    /// The value in the cell.
    pub closed spec fn value(&self) -> T {
        self.value@
    }
}

/// `AtomicCell::new`: a cell that holds the given value.
#[verifier::external_body]
pub(crate) fn cell_new<T>(value: T) -> (r: RawCell<T>)
    ensures
        r.value() == value,
{
    RawCell { cell: AtomicCell::new(value), value: Ghost(value) }
}

/// `AtomicCell::swap`: stores the value and returns the one before it.
#[verifier::external_body]
pub(crate) fn cell_swap<T>(raw: &mut RawCell<T>, value: T) -> (r: T)
    ensures
        r == old(raw).value(),
        final(raw).value() == value,
{
    raw.cell.swap(value)
}

/// `AtomicCell::load`: a copy of the value in the cell.
#[verifier::external_body]
pub(crate) fn cell_load<T: Copy>(raw: &RawCell<T>) -> (r: T)
    ensures
        r == raw.value(),
{
    raw.cell.load()
}

/// `Arc::try_unwrap`: the value inside, or the `Arc` itself where it is not
/// the only reference. Whether it is the only one is not known here.
#[verifier::external_body]
fn arc_try_unwrap<T>(arc: Arc<T>) -> (r: Result<T, Arc<T>>)
    ensures
        r is Ok ==> r->Ok_0 == *arc,
        r is Err ==> r->Err_0 == arc,
{
    Arc::try_unwrap(arc)
}

/// `taken` is what taking the value out of `arc` came to.
pub closed spec fn unwraps<T>(arc: Arc<T>, taken: Result<T, Arc<T>>) -> bool {
    call_ensures(arc_try_unwrap, (arc,), taken)
}

/// Takes the value out of `arc`, where nobody else holds it.
pub(crate) fn take_out<T>(arc: Arc<T>) -> (r: Result<T, Arc<T>>)
    ensures
        unwraps(arc, r),
        r is Ok ==> r->Ok_0 == *arc,
        r is Err ==> r->Err_0 == arc,
{
    arc_try_unwrap(arc)
}

} // verus!
