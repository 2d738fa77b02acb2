//! What holds of the frame rate control and of the mailboxes it uses.

use std::sync::Arc;

use vstd::prelude::*;

use crate::container::{
    BoundedQueue, CallbackPayload, LatestCell, SendOutcome, SharedSlot, SlotAccess, SlotBusy,
};
use crate::debug_topic::DebugHandlerError;
use crate::fps::{
    fps_get_handler, fps_set_handler, rate_replacement, rate_target, vsync_replacement,
    vsync_target, FpsGetRequest, FpsGetResponse, FpsSetRequest, FpsSetResponse, FpsSetting,
    FpsSites, FpsState, FpsWriter,
};
use crate::gate::GateBoard;
use crate::hook::HookSite;
use crate::method_slot::TargetId;
use crate::phase::UpdateCtx;
use crate::runtime_config::FpsSection;

verus! {

// ---------------------------------------------------------------------------
// Mailboxes
// ---------------------------------------------------------------------------

/// A latest-value cell gives back what was written last, as often as it is
/// read, until it is taken; writing says whether something was overwritten.
pub proof fn latest_value_is_the_last_written<T: CallbackPayload>(
    cell: &mut LatestCell<T>,
    value: T,
    sent: SendOutcome,
    read: Option<T>,
    taking: &mut LatestCell<T>,
    taken: Option<T>,
    left: Option<T>,
)
    requires
        call_ensures(LatestCell::<T>::try_send, (cell, value), sent),
        call_ensures(LatestCell::<T>::try_read, (&*final(cell),), read),
        call_ensures(LatestCell::<T>::take, (taking,), taken),
        call_ensures(LatestCell::<T>::try_read, (&*final(taking),), left),
    ensures
        read == Some(value),
        sent == SendOutcome::Replaced <==> old(cell)@ is Some,
        sent == SendOutcome::Accepted <==> old(cell)@ is None,
        taken == old(taking)@,
        left is None,
{
}

/// A bounded queue takes an item exactly while it holds fewer than it has room
/// for, behind the others, and gives back the oldest first; a full one changes
/// nothing.
pub proof fn bounded_queue_is_first_in_first_out<T: CallbackPayload, const N: usize>(
    queue: &mut BoundedQueue<T, N>,
    value: T,
    sent: SendOutcome,
    reading: &mut BoundedQueue<T, N>,
    read: Option<T>,
    len: usize,
    empty: bool,
)
    requires
        call_ensures(BoundedQueue::<T, N>::try_send, (queue, value), sent),
        call_ensures(BoundedQueue::<T, N>::try_read, (reading,), read),
        call_ensures(BoundedQueue::<T, N>::len, (&*final(queue),), len),
        call_ensures(BoundedQueue::<T, N>::is_empty, (&*final(queue),), empty),
    ensures
        sent == SendOutcome::Accepted <==> old(queue)@.len() < N,
        sent == SendOutcome::Accepted || sent == SendOutcome::Full,
        final(queue)@ == if sent == SendOutcome::Accepted {
            old(queue)@.push(value)
        } else {
            old(queue)@
        },
        len == final(queue)@.len(),
        empty <==> len == 0,
        read is Some <==> old(reading)@.len() > 0,
        read matches Some(first) ==> old(reading)@ == seq![first] + final(reading)@,
        read is None ==> final(reading)@ == old(reading)@,
{
    if let Some(first) = read {
        assert(old(reading)@ =~= seq![first] + final(reading)@);
    }
}

/// A shared slot is written only where its lock is simply free, read and taken
/// unless its lock is contended, and reported as occupied wherever it cannot be
/// seen to be empty.
pub proof fn shared_slot_is_never_overwritten_blindly<T>(
    slot: &mut SharedSlot<T>,
    access: SlotAccess,
    value: Arc<T>,
    sent: Result<SendOutcome, SlotBusy>,
    read: Option<Arc<T>>,
    set: bool,
    taking: &mut SharedSlot<T>,
    taken: Option<Arc<T>>,
)
    requires
        call_ensures(SharedSlot::<T>::try_send, (slot, access, value), sent),
        call_ensures(SharedSlot::<T>::try_read, (&*final(slot), access), read),
        call_ensures(SharedSlot::<T>::is_set, (&*old(slot), access), set),
        call_ensures(SharedSlot::<T>::take, (taking, access), taken),
    ensures
        sent is Ok <==> access == SlotAccess::Free,
        sent is Ok ==> final(slot)@ == Some(value) && read == Some(value),
        sent matches Ok(outcome) ==> (outcome == SendOutcome::Replaced <==> set),
        sent matches Ok(outcome) ==> outcome == SendOutcome::Replaced || outcome
            == SendOutcome::Accepted,
        sent is Err ==> final(slot)@ == old(slot)@ && set,
        access == SlotAccess::Poisoned ==> read == old(slot)@,
        access == SlotAccess::Contended ==> read is None && taken is None && final(taking)@ == old(
            taking)@,
        access != SlotAccess::Contended ==> taken == old(taking)@ && final(taking)@ is None,
{
}

/// What was stored is told from what was not.
pub proof fn stored_means_kept(outcome: SendOutcome, r: bool)
    requires
        call_ensures(SendOutcome::is_stored, (outcome,), r),
    ensures
        r <==> outcome != SendOutcome::Full && outcome != SendOutcome::Busy,
{
}

// ---------------------------------------------------------------------------
// Frame rate
// ---------------------------------------------------------------------------

/// The two setters are the static Unity setters of one `int`, and they are two.
pub proof fn setters_are_those_of_unity(rate: TargetId, vsync: TargetId)
    requires
        call_ensures(rate_target, (), rate),
        call_ensures(vsync_target, (), vsync),
    ensures
        rate@.assembly == "UnityEngine.CoreModule.dll"@,
        rate@.namespace == "UnityEngine"@,
        rate@.class == "Application"@,
        rate@.method == "set_targetFrameRate"@,
        vsync@.assembly == "UnityEngine.CoreModule.dll"@,
        vsync@.namespace == "UnityEngine"@,
        vsync@.class == "QualitySettings"@,
        vsync@.method == "set_vSyncCount"@,
        rate@.param_count == 1 && vsync@.param_count == 1,
        rate@.is_static && vsync@.is_static,
        rate@.return_type == "void"@ && vsync@.return_type == "void"@,
        rate@.parameter_types == seq!["int"@],
        vsync@.parameter_types == seq!["int"@],
{
}

/// The game's frame rate setter is called at most once, at its original
/// address: with the game's own value while a gate is closed, and otherwise
/// with what was set last, or with the target where nothing was set. Without an
/// installed original it is not called.
pub proof fn set_rate_replaces_the_games<O: FnOnce(usize, i32)>(
    site: &HookSite<FpsSites>,
    board: &GateBoard,
    mailbox: &LatestCell<FpsSetting>,
    target: i32,
    value: i32,
    original: O,
    r: Option<i32>,
)
    requires
        call_ensures(
            rate_replacement::<O>,
            (site, board, mailbox, target, value, original),
            r,
        ),
    ensures
        ({
            let inner = site@->Some_0;
            let open = inner.runtime_gate.state(*board) is Open && inner.plugin_gate.state(
                *board,
            ) is Open;
            &&& r is Some <==> site@ is Some && inner.installed && inner.original_addr != 0
            &&& r is Some && !open ==> r == Some(value)
            &&& r is Some && open && mailbox@ is None ==> r == Some(target)
            &&& r is Some && open && mailbox@ is Some ==> r == Some(mailbox@->Some_0.0)
            &&& r matches Some(passed) ==> original.ensures((inner.original_addr, passed), ())
        }),
{
}

/// The game's v-sync setter is called at most once, at its original address:
/// with the game's own value while a gate is closed, and with 0 otherwise.
pub proof fn vsync_is_switched_off<O: FnOnce(usize, i32)>(
    site: &HookSite<FpsSites>,
    board: &GateBoard,
    value: i32,
    original: O,
    r: Option<i32>,
)
    requires
        call_ensures(vsync_replacement::<O>, (site, board, value, original), r),
    ensures
        ({
            let inner = site@->Some_0;
            let open = inner.runtime_gate.state(*board) is Open && inner.plugin_gate.state(
                *board,
            ) is Open;
            &&& r is Some <==> site@ is Some && inner.installed && inner.original_addr != 0
            &&& r is Some && !open ==> r == Some(value)
            &&& r is Some && open ==> r == Some(0i32)
            &&& r matches Some(passed) ==> original.ensures((inner.original_addr, passed), ())
        }),
{
}

/// A target from 1 to 1000 is set: it is then reported, waits for the callback
/// domain, and is counted. Any other is refused and changes nothing.
pub proof fn target_in_range_is_set(
    ctx: &UpdateCtx<'_>,
    request: FpsSetRequest,
    state: &mut FpsState,
    writer: &FpsWriter,
    mailbox: &mut LatestCell<FpsSetting>,
    r: Result<FpsSetResponse, DebugHandlerError>,
    ask: FpsGetRequest,
    reported: Result<FpsGetResponse, DebugHandlerError>,
)
    requires
        call_ensures(fps_set_handler, (ctx, request, state, writer, mailbox), r),
        call_ensures(fps_get_handler, (ask, &*final(state)), reported),
    ensures
        r is Ok <==> 1 <= request.target <= 1000,
        reported is Ok,
        r matches Ok(answer) ==> {
            &&& answer.applied
            &&& reported->Ok_0.target == request.target
            &&& final(mailbox)@ is Some && final(mailbox)@->Some_0.0 == request.target
            &&& old(state).updates < u64::MAX ==> final(state).updates == old(state).updates + 1
            &&& old(state).updates == u64::MAX ==> final(state).updates == 0
        },
        r matches Err(error) ==> {
            &&& error.0@ == "target must be between 1 and 1000"@
            &&& reported->Ok_0.target == old(state).target
            &&& final(state).updates == old(state).updates
            &&& final(mailbox)@ == old(mailbox)@
        },
{
}

/// The control starts from the configured target, never set.
pub proof fn control_starts_as_configured(config: &FpsSection, r: FpsState)
    requires
        call_ensures(FpsState::new, (config,), r),
    ensures
        r.target == config.target,
        r.updates == 0,
        crate::fps::GET_TOPIC@ == "fps.get"@,
        crate::fps::SET_TOPIC@ == "fps.set"@,
{
}

} // verus!
