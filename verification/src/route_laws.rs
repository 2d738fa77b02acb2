//! What cross-domain routes do with the messages that they carry.

use std::sync::Arc;

use vstd::prelude::*;

use crate::base::{OwnerId, RouteId};
use crate::callback::CallbackCtx;
use crate::container::{
    BoundedQueue, CallbackPayload, LatestCell, SendOutcome, SharedSlot, SlotAccess, SlotBusy,
};
use crate::phase::UpdateCtx;
use crate::route::{
    CallbackBoundedReader, CallbackBoundedWriter, CallbackLatestReader, CallbackLatestWriter,
    CallbackSharedReader, CallbackSharedWriter, MainBoundedReader, MainBoundedWriter, MainInbox,
    MainLatestReader, MainLatestWriter, MainSharedReader, MainSharedWriter, SharedEnvelope,
};
use crate::routes::{RouteDirection, RouteEntry, RouteRegistration, RouteTable};

verus! {

// ---------------------------------------------------------------------------
// The main-side receiver
// ---------------------------------------------------------------------------

/// A message that was written to a registered receiver is read back behind
/// those that were there, once; without registration it is refused.
pub proof fn inbox_gives_back_what_was_written<T>(
    inbox: &mut MainInbox<T>,
    value: T,
    written: bool,
    later: &mut MainInbox<T>,
    read: Vec<T>,
    again: &mut MainInbox<T>,
    rest: Vec<T>,
)
    requires
        call_ensures(MainInbox::<T>::write, (inbox, value), written),
        *old(later) == *final(inbox),
        call_ensures(MainInbox::<T>::read, (later,), read),
        *old(again) == *final(later),
        call_ensures(MainInbox::<T>::read, (again,), rest),
    ensures
        written <==> old(inbox)@ is Some,
        written ==> read@ == old(inbox)@->Some_0 + seq![value],
        !written ==> read.len() == 0 && final(inbox)@ is None,
        rest.len() == 0,
        final(again)@ is Some <==> written,
{
    if written {
        assert(old(inbox)@->Some_0.push(value) =~= old(inbox)@->Some_0 + seq![value]);
    }
}

/// A receiver is registered once it was registered, and loses nothing by being
/// registered again; a new one is not.
pub proof fn registered_inbox_keeps_its_messages<T>(
    new: MainInbox<T>,
    known: bool,
    inbox: &mut MainInbox<T>,
    registered: bool,
)
    requires
        call_ensures(MainInbox::<T>::new, (), new),
        call_ensures(MainInbox::<T>::is_registered, (&new,), known),
        call_ensures(MainInbox::<T>::register, (inbox,), ()),
        call_ensures(MainInbox::<T>::is_registered, (&*final(inbox),), registered),
    ensures
        !known,
        registered,
        old(inbox)@ matches Some(messages) ==> final(inbox)@ == Some(messages),
        old(inbox)@ is None ==> final(inbox)@ is Some && final(inbox)@->Some_0.len() == 0,
{
}

// ---------------------------------------------------------------------------
// latest
// ---------------------------------------------------------------------------

/// What the main side sent last is what a callback reads, and the sender learns
/// whether it replaced a value.
pub proof fn callback_reads_the_latest<T: CallbackPayload>(
    writer: &MainLatestWriter<T>,
    update: &UpdateCtx<'_>,
    mailbox: &mut LatestCell<T>,
    value: T,
    sent: SendOutcome,
    reader: &CallbackLatestReader<T>,
    callback: &CallbackCtx,
    read: Option<T>,
    before: Option<T>,
)
    requires
        call_ensures(MainLatestWriter::<T>::try_send, (writer, update, mailbox, value), sent),
        call_ensures(
            CallbackLatestReader::<T>::try_read,
            (reader, callback, &*final(mailbox)),
            read,
        ),
        call_ensures(CallbackLatestReader::<T>::try_read, (reader, callback, &*old(mailbox)), before),
    ensures
        read == Some(value),
        sent is Replaced <==> before is Some,
        sent is Accepted <==> before is None,
{
}

/// What a callback sent last is delivered once, where there is a receiver and
/// the watermark lets it pass.
pub proof fn drain_delivers_the_latest<T: CallbackPayload>(
    writer: &CallbackLatestWriter<T>,
    callback: &CallbackCtx,
    mailbox: &mut LatestCell<T>,
    value: T,
    sent: SendOutcome,
    reader: &MainLatestReader<T>,
    visible: usize,
    drained: &mut LatestCell<T>,
    receiver: &mut MainInbox<T>,
    watermark: usize,
    delivered: usize,
    left: usize,
)
    requires
        call_ensures(CallbackLatestWriter::<T>::try_send, (writer, callback, mailbox, value), sent),
        call_ensures(MainLatestReader::<T>::depth, (reader, &*final(mailbox)), visible),
        *old(drained) == *final(mailbox),
        call_ensures(
            MainLatestReader::<T>::drain,
            (reader, drained, receiver, watermark),
            delivered,
        ),
        call_ensures(MainLatestReader::<T>::depth, (reader, &*final(drained)), left),
    ensures
        visible == 1,
        sent is Replaced <==> old(mailbox)@ is Some,
        sent is Accepted <==> old(mailbox)@ is None,
        watermark == 0 ==> delivered == 0 && left == 1 && final(receiver)@ == old(receiver)@,
        watermark > 0 ==> left == 0,
        watermark > 0 && old(receiver)@ is Some ==> delivered == 1 && final(receiver)@ == Some(
            old(receiver)@->Some_0 + seq![value],
        ),
        old(receiver)@ is None ==> delivered == 0 && final(receiver)@ is None,
{
    if watermark > 0 && old(receiver)@ is Some {
        assert(old(receiver)@->Some_0.push(value) =~= old(receiver)@->Some_0 + seq![value]);
    }
}

/// Draining an empty mailbox delivers nothing.
pub proof fn empty_latest_delivers_nothing<T: CallbackPayload>(
    reader: &MainLatestReader<T>,
    mailbox: &mut LatestCell<T>,
    receiver: &mut MainInbox<T>,
    watermark: usize,
    delivered: usize,
    visible: usize,
)
    requires
        old(mailbox)@ is None,
        call_ensures(
            MainLatestReader::<T>::drain,
            (reader, mailbox, receiver, watermark),
            delivered,
        ),
        call_ensures(MainLatestReader::<T>::depth, (reader, &*final(mailbox)), visible),
    ensures
        delivered == 0,
        visible == 0,
        final(receiver)@ == old(receiver)@,
{
}

// ---------------------------------------------------------------------------
// bounded
// ---------------------------------------------------------------------------

/// The main side pushes behind what waits while there is room, and a callback
/// takes the oldest: nothing is lost, doubled or reordered.
pub proof fn callback_takes_the_oldest<T: CallbackPayload, const N: usize>(
    writer: &MainBoundedWriter<T, N>,
    update: &UpdateCtx<'_>,
    mailbox: &mut BoundedQueue<T, N>,
    value: T,
    sent: SendOutcome,
    reader: &CallbackBoundedReader<T, N>,
    callback: &CallbackCtx,
    later: &mut BoundedQueue<T, N>,
    read: Option<T>,
    count: usize,
    empty: bool,
)
    requires
        old(mailbox).wf(),
        call_ensures(MainBoundedWriter::<T, N>::try_send, (writer, update, mailbox, value), sent),
        *old(later) == *final(mailbox),
        call_ensures(CallbackBoundedReader::<T, N>::try_read, (reader, callback, later), read),
        call_ensures(CallbackBoundedReader::<T, N>::len, (reader, callback, &*final(later)), count),
        call_ensures(
            CallbackBoundedReader::<T, N>::is_empty,
            (reader, callback, &*final(later)),
            empty,
        ),
    ensures
        sent is Accepted <==> old(mailbox)@.len() < N,
        sent is Full <==> old(mailbox)@.len() >= N,
        ({
            let waiting = if sent is Accepted {
                old(mailbox)@ + seq![value]
            } else {
                old(mailbox)@
            };
            &&& read is Some <==> waiting.len() > 0
            &&& read matches Some(oldest) ==> seq![oldest] + final(later)@ == waiting
            &&& read is None ==> count == 0
        }),
        count == final(later)@.len(),
        empty <==> count == 0,
{
    let waiting = if sent is Accepted {
        old(mailbox)@ + seq![value]
    } else {
        old(mailbox)@
    };
    assert(old(mailbox)@.push(value) =~= old(mailbox)@ + seq![value]);
    assert(waiting == final(mailbox)@);
    if waiting.len() > 0 {
        assert(seq![waiting[0]] + waiting.skip(1) =~= waiting);
    }
}

/// A callback's message waits behind those before it, or finds the queue full
/// and changes nothing.
pub proof fn callback_pushes_while_there_is_room<T: CallbackPayload, const N: usize>(
    writer: &CallbackBoundedWriter<T, N>,
    callback: &CallbackCtx,
    mailbox: &mut BoundedQueue<T, N>,
    value: T,
    sent: SendOutcome,
    reader: &MainBoundedReader<T, N>,
    before: usize,
    visible: usize,
)
    requires
        old(mailbox).wf(),
        call_ensures(CallbackBoundedWriter::<T, N>::try_send, (writer, callback, mailbox, value), sent),
        call_ensures(MainBoundedReader::<T, N>::depth, (reader, &*old(mailbox)), before),
        call_ensures(MainBoundedReader::<T, N>::depth, (reader, &*final(mailbox)), visible),
    ensures
        before < N ==> sent is Accepted && visible == before + 1 && final(mailbox)@.last() == value
            && final(mailbox)@.drop_last() == old(mailbox)@,
        before >= N ==> sent is Full && final(mailbox)@ == old(mailbox)@,
{
    assert(old(mailbox)@.push(value).drop_last() =~= old(mailbox)@);
}

/// Draining moves messages from the mailbox behind those of the receiver and
/// keeps all of them in order. It stops at the watermark or when nothing is
/// left, and does not begin without a receiver.
pub proof fn drain_moves_the_oldest<T: CallbackPayload, const N: usize>(
    reader: &MainBoundedReader<T, N>,
    mailbox: &mut BoundedQueue<T, N>,
    receiver: &mut MainInbox<T>,
    watermark: usize,
    delivered: usize,
)
    requires
        old(mailbox).wf(),
        call_ensures(
            MainBoundedReader::<T, N>::drain,
            (reader, mailbox, receiver, watermark),
            delivered,
        ),
    ensures
        delivered <= watermark,
        delivered == old(mailbox)@.len() - final(mailbox)@.len(),
        old(receiver)@ is None ==> delivered == 0 && final(receiver)@ is None,
        old(receiver)@ is Some ==> {
            &&& delivered == watermark || final(mailbox)@.len() == 0
            &&& final(receiver)@ is Some
            &&& final(receiver)@->Some_0.len() == old(receiver)@->Some_0.len() + delivered
            &&& final(receiver)@->Some_0 + final(mailbox)@ == old(receiver)@->Some_0 + old(mailbox)@
        },
{
    if let Some(messages) = old(receiver)@ {
        let all = old(mailbox)@;
        let count = delivered as int;
        assert((messages + all.take(count)) + all.skip(count) =~= messages + all);
    }
}

// ---------------------------------------------------------------------------
// shared_latest
// ---------------------------------------------------------------------------

/// What the main side put into a free slot is what a callback reads, unless it
/// finds the slot contended; a slot that is not free refuses and keeps what it
/// has.
pub proof fn callback_reads_the_shared_value<T>(
    writer: &MainSharedWriter<T>,
    update: &UpdateCtx<'_>,
    mailbox: &mut SharedSlot<T>,
    access: SlotAccess,
    value: T,
    sent: Result<SendOutcome, SlotBusy>,
    reader: &CallbackSharedReader<T>,
    callback: &CallbackCtx,
    entry: SlotAccess,
    read: Option<Arc<T>>,
)
    requires
        call_ensures(
            MainSharedWriter::<T>::try_send,
            (writer, update, mailbox, access, value),
            sent,
        ),
        call_ensures(
            CallbackSharedReader::<T>::try_read,
            (reader, callback, &*final(mailbox), entry),
            read,
        ),
    ensures
        sent is Ok <==> access is Free,
        sent matches Ok(outcome) ==> (outcome is Replaced <==> old(mailbox)@ is Some) && (
        outcome is Accepted <==> old(mailbox)@ is None),
        entry is Contended ==> read is None,
        !(entry is Contended) && access is Free ==> read == Some(Arc::new(value)),
        !(entry is Contended) && !(access is Free) ==> read == old(mailbox)@,
{
}

/// What a callback put into a free slot is delivered once, where the drain may
/// enter the slot, there is a receiver, and the watermark lets it pass.
pub proof fn drain_delivers_the_shared_value<T>(
    writer: &CallbackSharedWriter<T>,
    callback: &CallbackCtx,
    mailbox: &mut SharedSlot<T>,
    access: SlotAccess,
    value: Arc<T>,
    sent: Result<SendOutcome, SlotBusy>,
    reader: &MainSharedReader<T>,
    entry: SlotAccess,
    visible: usize,
    drained: &mut SharedSlot<T>,
    receiver: &mut MainInbox<SharedEnvelope<T>>,
    watermark: usize,
    delivered: usize,
)
    requires
        call_ensures(
            CallbackSharedWriter::<T>::try_send,
            (writer, callback, mailbox, access, value),
            sent,
        ),
        call_ensures(MainSharedReader::<T>::depth, (reader, &*final(mailbox), entry), visible),
        *old(drained) == *final(mailbox),
        call_ensures(
            MainSharedReader::<T>::drain,
            (reader, drained, entry, receiver, watermark),
            delivered,
        ),
    ensures
        sent is Ok <==> access is Free,
        sent matches Ok(outcome) ==> (outcome is Replaced <==> old(mailbox)@ is Some) && (
        outcome is Accepted <==> old(mailbox)@ is None),
        !(access is Free) ==> final(mailbox)@ == old(mailbox)@,
        visible == 1 <==> !(entry is Contended) && final(mailbox)@ is Some,
        visible <= 1,
        entry is Contended || watermark == 0 ==> delivered == 0 && final(drained)@
            == final(mailbox)@ && final(receiver)@ == old(receiver)@,
        !(entry is Contended) && watermark > 0 ==> final(drained)@ is None,
        !(entry is Contended) && watermark > 0 && access is Free && old(receiver)@ is Some
            ==> delivered == 1 && final(receiver)@ == Some(
            old(receiver)@->Some_0 + seq![SharedEnvelope(value)],
        ),
        old(receiver)@ is None || final(mailbox)@ is None ==> delivered == 0
            && final(receiver)@ == old(receiver)@,
{
    if old(receiver)@ is Some {
        let envelope = SharedEnvelope(value);
        assert(old(receiver)@->Some_0.push(envelope) =~= old(receiver)@->Some_0 + seq![envelope]);
    }
}

// ---------------------------------------------------------------------------
// The table
// ---------------------------------------------------------------------------

/// A route that is pushed is the last of the table, as it was asked for, and
/// its id is none of those before.
pub proof fn pushed_route_is_the_newest<D, R>(
    table: &mut RouteTable<D>,
    owner: OwnerId,
    route: RouteRegistration<D, R>,
    id: RouteId,
    entries: &[RouteEntry<D>],
)
    requires
        old(table).wf(),
        old(table)@.len() < u64::MAX,
        call_ensures(RouteTable::<D>::push::<R>, (table, owner, route), id),
        call_ensures(RouteTable::<D>::entries, (&*final(table),), entries),
    ensures
        final(table).wf(),
        entries.len() == old(table)@.len() + 1,
        forall|i: int| 0 <= i < old(table)@.len() ==> #[trigger] entries@[i] == old(table)@[i],
        forall|i: int| 0 <= i < old(table)@.len() ==> (#[trigger] old(table)@[i]).id != id,
        ({
            let newest = entries@.last();
            &&& newest.id == id
            &&& newest.owner == owner
            &&& newest.direction == route.direction
            &&& newest.payload == route.payload
            &&& newest.mailbox == route.mailbox
            &&& newest.drain == route.drain
        }),
{
    assert(entries@ == final(table)@);
    assert forall|i: int| 0 <= i < old(table)@.len() implies (#[trigger] old(table)@[i]).id
        != id by {
        crate::routes::route_ids_are_unique(*final(table), i, old(table)@.len() as int);
        assert(final(table)@[i] == old(table)@[i]);
    }
}

/// `picked` are the routes to drain: those toward the main side that have a
/// drain and an owner of whom `active` holds, in order.
pub open spec fn are_drained<D>(
    picked: Seq<int>,
    entries: Seq<RouteEntry<D>>,
    active: Seq<bool>,
) -> bool {
    &&& forall|i: int|
        0 <= i < entries.len() ==> ((#[trigger] entries[i]).direction
            == RouteDirection::CallbackToMain && entries[i].drain is Some && active[i]
            <==> picked.contains(i))
    &&& forall|k: int| 0 <= k < picked.len() ==> 0 <= #[trigger] picked[k] < entries.len()
    &&& forall|j: int, k: int| 0 <= j < k < picked.len() ==> picked[j] < picked[k]
}

/// The places of the drains of the first `count` routes.
spec fn drained_places<D>(entries: Seq<RouteEntry<D>>, active: Seq<bool>, count: nat) -> Seq<int>
    decreases count,
{
    if count == 0 {
        Seq::empty()
    } else {
        let before = drained_places(entries, active, (count - 1) as nat);
        if crate::routes::is_drained(entries[count - 1], active[count - 1]) {
            before.push(count - 1)
        } else {
            before
        }
    }
}

proof fn lemma_drained_places<D>(entries: Seq<RouteEntry<D>>, active: Seq<bool>, count: nat)
    requires
        count <= entries.len() == active.len(),
    ensures
        are_drained(drained_places(entries, active, count), entries.take(count as int), active),
        crate::routes::drains(entries, active, count).len() == drained_places(
            entries,
            active,
            count,
        ).len(),
        forall|k: int|
            0 <= k < drained_places(entries, active, count).len() ==> #[trigger]
                crate::routes::drains(entries, active, count)[k] == entries[drained_places(
                entries,
                active,
                count,
            )[k]].drain->Some_0,
    decreases count,
{
    let picked = drained_places(entries, active, count);
    if count > 0 {
        let last = count - 1;
        let before = drained_places(entries, active, last as nat);
        let shorter = entries.take(last);
        let longer = entries.take(count as int);
        lemma_drained_places(entries, active, last as nat);
        assert forall|i: int| 0 <= i < longer.len() implies ((#[trigger] longer[i]).direction
            == RouteDirection::CallbackToMain && longer[i].drain is Some && active[i]
            <==> picked.contains(i)) by {
            if i < last {
                assert(shorter[i] == longer[i]);
                if before.contains(i) {
                    let k = choose|k: int| 0 <= k < before.len() && before[k] == i;
                    assert(picked[k] == i);
                }
                if picked.contains(i) {
                    let k = choose|k: int| 0 <= k < picked.len() && picked[k] == i;
                    assert(before[k] == i);
                }
            } else if crate::routes::is_drained(entries[last], active[last]) {
                assert(picked[before.len() as int] == i);
            } else {
                assert(longer[i] == entries[last]);
            }
        }
    }
}

/// The drains that are handed out are those of `picked`, and `active` is what
/// was said of the owners.
pub open spec fn hands_out<D, F: Fn(OwnerId) -> bool>(
    r: Seq<D>,
    entries: Seq<RouteEntry<D>>,
    is_active: F,
    active: Seq<bool>,
    picked: Seq<int>,
) -> bool {
    &&& active.len() == entries.len()
    &&& forall|i: int|
        0 <= i < entries.len() && entries[i].direction == RouteDirection::CallbackToMain
            ==> is_active.ensures((entries[i].owner,), #[trigger] active[i])
    &&& are_drained(picked, entries, active)
    &&& r.len() == picked.len()
    &&& forall|k: int|
        0 <= k < r.len() ==> entries[#[trigger] picked[k]].drain == Some(r[k])
}

/// Every route toward the main side whose owner is active is drained, and no
/// other, in the order of the table.
pub proof fn routes_of_active_owners_are_drained<D: Copy, F: Fn(OwnerId) -> bool>(
    table: &RouteTable<D>,
    is_active: &F,
    r: Vec<D>,
)
    requires
        call_ensures(RouteTable::<D>::active_drains::<F>, (table, is_active), r),
    ensures
        exists|active: Seq<bool>, picked: Seq<int>| #[trigger]
            hands_out(r@, table@, *is_active, active, picked),
{
    let active = choose|active: Seq<bool>|
        {
            &&& active.len() == table@.len()
            &&& forall|i: int|
                0 <= i < active.len() && table@[i].direction is CallbackToMain
                    ==> is_active.ensures((table@[i].owner,), #[trigger] active[i])
            &&& r@ == #[trigger] crate::routes::drains(table@, active, table@.len())
        };
    let picked = drained_places(table@, active, table@.len());
    lemma_drained_places(table@, active, table@.len());
    assert(table@.take(table@.len() as int) =~= table@);
    assert forall|k: int| 0 <= k < r.len() implies table@[#[trigger] picked[k]].drain == Some(
        r@[k],
    ) by {
        assert(picked.contains(picked[k]));
        assert(crate::routes::drains(table@, active, table@.len())[k] == table@[picked[k]].drain->Some_0);
    }
    assert(hands_out(r@, table@, *is_active, active, picked));
}

/// The snapshot tells of every route in order its payload, its mailbox and how
/// much waits; nothing waits on a route without a drain.
pub proof fn snapshot_tells_of_every_route<D, F: Fn(&D) -> usize>(
    table: &RouteTable<D>,
    visible: &F,
    r: Vec<(&'static str, &'static str, usize)>,
    i: int,
    entry: &RouteEntry<D>,
    depth: usize,
)
    requires
        call_ensures(RouteTable::<D>::snapshot::<F>, (table, visible), r),
        0 <= i < table@.len(),
        *entry == table@[i],
        call_ensures(RouteEntry::<D>::depth::<F>, (entry, visible), depth),
    ensures
        r.len() == table@.len(),
        r@[i].0 == table@[i].payload,
        r@[i].1 == table@[i].mailbox,
        table@[i].drain matches Some(drain) ==> visible.ensures((&drain,), r@[i].2)
            && visible.ensures((&drain,), depth),
        table@[i].drain is None ==> r@[i].2 == 0 && depth == 0,
{
    assert(r[i] == r@[i]);
}

} // verus!
