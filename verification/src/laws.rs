//! What holds over several operations on one native handler.
//!
//! The state that links one operation to the next is kept by the native layer.
//! Each law names, as its premise, what the native layer does with that state,
//! and concludes over every outcome that the contracts of the operations allow.
use vstd::prelude::*;
use crate::handler::PacketTrailerHandler;

verus! {

/// Metadata of one frame: user timestamp, frame ID and user data.
pub type FrameMetadata = (u64, u32, Seq<u8>);

/// Metadata of the received frames, by RTP timestamp.
pub type ReceivedFrames = Map<u32, FrameMetadata>;

/// What happens to the received frames of a native handler.
pub enum ReceiverEvent {
    /// Metadata was received for an RTP timestamp.
    Received(u32, FrameMetadata),
    /// An RTP timestamp was looked up.
    LookedUp(u32),
}

/// Whether an event may turn `before` into `after`. A lookup removes the entry
/// that it finds and nothing else. A frame that is received gets its entry;
/// older entries may be dropped for it, and none is changed.
pub open spec fn receiver_step(
    before: ReceivedFrames,
    event: ReceiverEvent,
    after: ReceivedFrames,
) -> bool {
    match event {
        ReceiverEvent::Received(rtp_timestamp, metadata) => {
            &&& after.contains_key(rtp_timestamp)
            &&& after[rtp_timestamp] == metadata
            &&& forall|other: u32|
                other != rtp_timestamp && #[trigger] after.contains_key(other)
                    ==> before.contains_key(other) && after[other] == before[other]
        },
        ReceiverEvent::LookedUp(rtp_timestamp) => after == before.remove(rtp_timestamp),
    }
}

/// Whether the received frames go through the given states, from one event to
/// the next.
pub open spec fn receiver_run(states: Seq<ReceivedFrames>, events: Seq<ReceiverEvent>) -> bool {
    &&& states.len() == events.len() + 1
    &&& forall|i: int|
        0 <= i < events.len() ==> receiver_step(states[i], #[trigger] events[i], states[i + 1])
}

/// Whether native lookup operations on a handle answer a lookup of an RTP
/// timestamp from the received frames: with the entry, and with `u64::MAX`
/// where there is none.
pub open spec fn answers_from<H, L, F, D>(
    frames: ReceivedFrames,
    handle: H,
    rtp_timestamp: u32,
    lookup_timestamp: L,
    last_lookup_frame_id: F,
    last_lookup_user_data: D,
) -> bool where
    L: FnOnce(&H, u32) -> u64,
    F: FnOnce(&H) -> u32,
    D: FnOnce(&H) -> Vec<u8>,
 {
    &&& forall|answer: u64| #[trigger]
        call_ensures(lookup_timestamp, (&handle, rtp_timestamp), answer) ==> answer == (
        if frames.contains_key(rtp_timestamp) {
            frames[rtp_timestamp].0
        } else {
            u64::MAX
        })
    &&& frames.contains_key(rtp_timestamp) ==> {
        &&& forall|frame_id: u32| #[trigger]
            call_ensures(last_lookup_frame_id, (&handle,), frame_id) ==> frame_id
                == frames[rtp_timestamp].1
        &&& forall|user_data: Vec<u8>| #[trigger]
            call_ensures(last_lookup_user_data, (&handle,), user_data) ==> user_data@
                == frames[rtp_timestamp].2
    }
}

/// What a lookup finds in the received frames. An entry whose user timestamp is
/// `u64::MAX` cannot be told from a missing one.
pub open spec fn found(frames: ReceivedFrames, rtp_timestamp: u32) -> Option<FrameMetadata> {
    if frames.contains_key(rtp_timestamp) && frames[rtp_timestamp].0 != u64::MAX {
        Some(frames[rtp_timestamp])
    } else {
        None
    }
}

/// Frame metadata with the user data as a sequence.
pub open spec fn metadata_view(metadata: Option<(u64, u32, Vec<u8>)>) -> Option<FrameMetadata> {
    match metadata {
        Some((user_timestamp, frame_id, user_data)) => Some((user_timestamp, frame_id, user_data@)),
        None => None,
    }
}

/// Where the native layer answers from the received frames, a lookup returns
/// what it finds there.
pub proof fn lookup_returns_what_is_found<H, L, F, D>(
    frames: ReceivedFrames,
    handler: PacketTrailerHandler<H>,
    rtp_timestamp: u32,
    lookup_timestamp: L,
    last_lookup_frame_id: F,
    last_lookup_user_data: D,
    metadata: Option<(u64, u32, Vec<u8>)>,
) where L: FnOnce(&H, u32) -> u64, F: FnOnce(&H) -> u32, D: FnOnce(&H) -> Vec<u8>
    requires
        answers_from(
            frames,
            handler@,
            rtp_timestamp,
            lookup_timestamp,
            last_lookup_frame_id,
            last_lookup_user_data,
        ),
        crate::handler::lookup_outcome(
            handler@,
            rtp_timestamp,
            lookup_timestamp,
            last_lookup_frame_id,
            last_lookup_user_data,
            metadata,
        ),
    ensures
        metadata_view(metadata) == found(frames, rtp_timestamp),
{
}

/// An entry that a lookup removed stays away until metadata is received for its
/// RTP timestamp again.
proof fn removed_entry_stays_away(
    states: Seq<ReceivedFrames>,
    events: Seq<ReceiverEvent>,
    rtp_timestamp: u32,
    lookup: int,
    now: int,
)
    requires
        receiver_run(states, events),
        0 <= lookup < now <= events.len(),
        events[lookup] == ReceiverEvent::LookedUp(rtp_timestamp),
        forall|i: int|
            lookup < i < now ==> !(#[trigger] events[i] matches ReceiverEvent::Received(r, _) && r
                == rtp_timestamp),
    ensures
        !states[now].contains_key(rtp_timestamp),
    decreases now,
{
    assert(receiver_step(states[now - 1], events[now - 1], states[now]));
    if lookup < now - 1 {
        removed_entry_stays_away(states, events, rtp_timestamp, lookup, now - 1);
    }
}

/// While nothing is received and no lookup asks for it, an entry stays as it is,
/// and so does its absence.
proof fn entry_stays_unless_looked_up(
    states: Seq<ReceivedFrames>,
    events: Seq<ReceiverEvent>,
    rtp_timestamp: u32,
    start: int,
    now: int,
)
    requires
        receiver_run(states, events),
        0 <= start <= now <= events.len(),
        forall|i: int|
            start <= i < now ==> (#[trigger] events[i] matches ReceiverEvent::LookedUp(r) && r
                != rtp_timestamp),
    ensures
        states[now].contains_key(rtp_timestamp) == states[start].contains_key(rtp_timestamp),
        states[start].contains_key(rtp_timestamp) ==> states[now][rtp_timestamp]
            == states[start][rtp_timestamp],
    decreases now,
{
    if start < now {
        entry_stays_unless_looked_up(states, events, rtp_timestamp, start, now - 1);
        assert(receiver_step(states[now - 1], events[now - 1], states[now]));
    }
}

/// Where the native layer answers from the received frames, and a native lookup
/// is one of their events: after a lookup, the next lookup of that RTP timestamp
/// returns nothing, on whichever handler the two are made, unless metadata was
/// received for that RTP timestamp in between.
pub proof fn lookup_takes_the_entry<H, L1, F1, D1, L, F, D>(
    states: Seq<ReceivedFrames>,
    events: Seq<ReceiverEvent>,
    rtp_timestamp: u32,
    first_handler: PacketTrailerHandler<H>,
    first_lookup_timestamp: L1,
    first_frame_id: F1,
    first_user_data: D1,
    first: Option<(u64, u32, Vec<u8>)>,
    place: int,
    handler: PacketTrailerHandler<H>,
    lookup_timestamp: L,
    last_lookup_frame_id: F,
    last_lookup_user_data: D,
    metadata: Option<(u64, u32, Vec<u8>)>,
) where
    L1: FnOnce(&H, u32) -> u64,
    F1: FnOnce(&H) -> u32,
    D1: FnOnce(&H) -> Vec<u8>,
    L: FnOnce(&H, u32) -> u64,
    F: FnOnce(&H) -> u32,
    D: FnOnce(&H) -> Vec<u8>,

    requires
        receiver_run(states, events),
        crate::handler::lookup_outcome(
            first_handler@,
            rtp_timestamp,
            first_lookup_timestamp,
            first_frame_id,
            first_user_data,
            first,
        ),
        0 <= place < events.len(),
        forall|answer: u64| #[trigger]
            call_ensures(first_lookup_timestamp, (&first_handler@, rtp_timestamp), answer)
                ==> events[place] == ReceiverEvent::LookedUp(rtp_timestamp),
        forall|i: int|
            place < i < events.len() ==> !(#[trigger] events[i] matches ReceiverEvent::Received(
                r,
                _,
            ) && r == rtp_timestamp),
        answers_from(
            states.last(),
            handler@,
            rtp_timestamp,
            lookup_timestamp,
            last_lookup_frame_id,
            last_lookup_user_data,
        ),
        crate::handler::lookup_outcome(
            handler@,
            rtp_timestamp,
            lookup_timestamp,
            last_lookup_frame_id,
            last_lookup_user_data,
            metadata,
        ),
    ensures
        metadata is None,
{
    removed_entry_stays_away(states, events, rtp_timestamp, place, events.len() as int);
}

/// Where the native layer answers from the received frames, lookups of other RTP
/// timestamps, whether they find an entry or not, do not change what a lookup
/// returns.
pub proof fn lookup_leaves_other_entries<H, L, F, D>(
    states: Seq<ReceivedFrames>,
    events: Seq<ReceiverEvent>,
    handler: PacketTrailerHandler<H>,
    rtp_timestamp: u32,
    lookup_timestamp: L,
    last_lookup_frame_id: F,
    last_lookup_user_data: D,
    metadata: Option<(u64, u32, Vec<u8>)>,
) where L: FnOnce(&H, u32) -> u64, F: FnOnce(&H) -> u32, D: FnOnce(&H) -> Vec<u8>
    requires
        receiver_run(states, events),
        forall|i: int|
            0 <= i < events.len() ==> (#[trigger] events[i] matches ReceiverEvent::LookedUp(r) && r
                != rtp_timestamp),
        answers_from(
            states.last(),
            handler@,
            rtp_timestamp,
            lookup_timestamp,
            last_lookup_frame_id,
            last_lookup_user_data,
        ),
        crate::handler::lookup_outcome(
            handler@,
            rtp_timestamp,
            lookup_timestamp,
            last_lookup_frame_id,
            last_lookup_user_data,
            metadata,
        ),
    ensures
        metadata_view(metadata) == found(states.first(), rtp_timestamp),
{
    entry_stays_unless_looked_up(states, events, rtp_timestamp, 0, events.len() as int);
}

/// Where a native lookup removes the entry that it finds and nothing else, and
/// the native layer answers from the received frames: right after a lookup of
/// one RTP timestamp, a lookup of that RTP timestamp returns nothing, and a
/// lookup of any other returns what it would have returned before, on whichever
/// handler the two are made.
pub proof fn lookup_after_a_lookup<H, L1, F1, D1, L, F, D>(
    before: ReceivedFrames,
    first_rtp_timestamp: u32,
    first_handler: PacketTrailerHandler<H>,
    first_lookup_timestamp: L1,
    first_frame_id: F1,
    first_user_data: D1,
    first: Option<(u64, u32, Vec<u8>)>,
    after: ReceivedFrames,
    rtp_timestamp: u32,
    handler: PacketTrailerHandler<H>,
    lookup_timestamp: L,
    last_lookup_frame_id: F,
    last_lookup_user_data: D,
    metadata: Option<(u64, u32, Vec<u8>)>,
) where
    L1: FnOnce(&H, u32) -> u64,
    F1: FnOnce(&H) -> u32,
    D1: FnOnce(&H) -> Vec<u8>,
    L: FnOnce(&H, u32) -> u64,
    F: FnOnce(&H) -> u32,
    D: FnOnce(&H) -> Vec<u8>,

    requires
        answers_from(
            before,
            first_handler@,
            first_rtp_timestamp,
            first_lookup_timestamp,
            first_frame_id,
            first_user_data,
        ),
        crate::handler::lookup_outcome(
            first_handler@,
            first_rtp_timestamp,
            first_lookup_timestamp,
            first_frame_id,
            first_user_data,
            first,
        ),
        forall|answer: u64| #[trigger]
            call_ensures(first_lookup_timestamp, (&first_handler@, first_rtp_timestamp), answer)
                ==> after == before.remove(first_rtp_timestamp),
        answers_from(
            after,
            handler@,
            rtp_timestamp,
            lookup_timestamp,
            last_lookup_frame_id,
            last_lookup_user_data,
        ),
        crate::handler::lookup_outcome(
            handler@,
            rtp_timestamp,
            lookup_timestamp,
            last_lookup_frame_id,
            last_lookup_user_data,
            metadata,
        ),
    ensures
        metadata_view(first) == found(before, first_rtp_timestamp),
        rtp_timestamp == first_rtp_timestamp ==> metadata is None,
        rtp_timestamp != first_rtp_timestamp ==> metadata_view(metadata) == found(
            before,
            rtp_timestamp,
        ),
{
}

/// Metadata stored on a sender comes out unchanged on a receiver: where the
/// pipeline carries what a native store took to the received frames, under some
/// RTP timestamp, and the native layer of the receiver answers from these, a
/// lookup of that RTP timestamp returns the user timestamp, the frame ID and the
/// user data that were stored.
///
/// A user timestamp of `u64::MAX` is left out: on the receiver it reads as a
/// missing entry.
pub proof fn lookup_returns_what_was_stored<G, W, H, L, F, D>(
    sender: PacketTrailerHandler<G>,
    capture_timestamp_us: i64,
    user_timestamp: u64,
    frame_id: u32,
    user_data: &[u8],
    native_store_frame_metadata: W,
    frames: ReceivedFrames,
    rtp_timestamp: u32,
    receiver: PacketTrailerHandler<H>,
    lookup_timestamp: L,
    last_lookup_frame_id: F,
    last_lookup_user_data: D,
    metadata: Option<(u64, u32, Vec<u8>)>,
) where
    W: FnOnce(&G, i64, u64, u32, &[u8]),
    L: FnOnce(&H, u32) -> u64,
    F: FnOnce(&H) -> u32,
    D: FnOnce(&H) -> Vec<u8>,

    requires
        user_timestamp != u64::MAX,
        call_ensures(
            native_store_frame_metadata,
            (&sender@, capture_timestamp_us, user_timestamp, frame_id, user_data),
            (),
        ),
        call_ensures(
            native_store_frame_metadata,
            (&sender@, capture_timestamp_us, user_timestamp, frame_id, user_data),
            (),
        ) ==> frames.contains_key(rtp_timestamp) && frames[rtp_timestamp] == (
            user_timestamp,
            frame_id,
            user_data@,
        ),
        answers_from(
            frames,
            receiver@,
            rtp_timestamp,
            lookup_timestamp,
            last_lookup_frame_id,
            last_lookup_user_data,
        ),
        crate::handler::lookup_outcome(
            receiver@,
            rtp_timestamp,
            lookup_timestamp,
            last_lookup_frame_id,
            last_lookup_user_data,
            metadata,
        ),
    ensures
        metadata_view(metadata) == Some((user_timestamp, frame_id, user_data@)),
{
}

/// Whether each handler but the first is a clone of an earlier one.
pub open spec fn clones<H: Clone>(handlers: Seq<PacketTrailerHandler<H>>) -> bool {
    forall|i: int|
        0 < i < handlers.len() ==> exists|j: int|
            0 <= j < i && cloned(#[trigger] handlers[j]@, (#[trigger] handlers[i])@)
}

/// Where a clone of a native handle points to the same native object, every
/// clone of a handler, and of its clones, shares the native object of the first.
pub proof fn clones_share_the_native_object<H: Clone>(
    points_to: spec_fn(H) -> int,
    handlers: Seq<PacketTrailerHandler<H>>,
    i: int,
)
    requires
        forall|a: H, b: H| #[trigger] cloned(a, b) ==> points_to(a) == points_to(b),
        clones(handlers),
        0 <= i < handlers.len(),
    ensures
        points_to(handlers[i]@) == points_to(handlers[0]@),
    decreases i,
{
    if i > 0 {
        let j = choose|j: int|
            0 <= j < i && cloned(#[trigger] handlers[j]@, (#[trigger] handlers[i])@);
        clones_share_the_native_object(points_to, handlers, j);
    }
}

/// The native object of a sender handler is never replaced: where a clone of a
/// native handle points to the same native object, and `is_null` tells the
/// handles that point to none (address zero), `sys_handle` of a handler that
/// `try_create_sender_handler` or `create_sender_handler` returned, or of any
/// clone of it, is not null and points to the object that the native creation
/// gave.
pub proof fn sys_handle_is_the_created_one<P, S, H, C, N>(
    points_to: spec_fn(H) -> int,
    peer_factory: P,
    sender: S,
    native_create: C,
    is_null: N,
    native: H,
    handlers: Seq<PacketTrailerHandler<H>>,
    i: int,
    handle: H,
) where H: Clone, C: FnOnce(&P, &S) -> H, N: FnOnce(&H) -> bool
    requires
        forall|a: H, b: H| #[trigger] cloned(a, b) ==> points_to(a) == points_to(b),
        forall|h: H, null: bool| #[trigger]
            call_ensures(is_null, (&h,), null) ==> null == (points_to(h) == 0),
        call_ensures(native_create, (&peer_factory, &sender), native),
        call_ensures(is_null, (&native,), false),
        clones(handlers),
        0 <= i < handlers.len(),
        handlers[0]@ == native,
        cloned(handlers[i]@, handle),
    ensures
        points_to(handle) == points_to(native),
        points_to(handle) != 0,
{
    clones_share_the_native_object(points_to, handlers, i);
}

/// A native operation on the flag of a native object, given by its address.
pub enum FlagCall {
    /// The flag was set.
    SetEnabled(int, bool),
    /// The flag was asked for.
    Enabled(int),
}

/// Flag of a native object after the given calls, where they set it: the value
/// last set. Asking changes nothing.
pub open spec fn flag_after(calls: Seq<FlagCall>, object: int) -> Option<bool>
    decreases calls.len(),
{
    if calls.len() == 0 {
        None
    } else {
        match calls.last() {
            FlagCall::SetEnabled(set, enabled) if set == object => Some(enabled),
            _ => flag_after(calls.drop_last(), object),
        }
    }
}

/// Whether `SetEnabled(object, enabled)` at the given place is the last call that
/// sets the flag of the object.
pub open spec fn last_set(calls: Seq<FlagCall>, place: int, object: int, enabled: bool) -> bool {
    &&& 0 <= place < calls.len()
    &&& calls[place] == FlagCall::SetEnabled(object, enabled)
    &&& forall|i: int|
        place < i < calls.len() ==> !(#[trigger] calls[i] matches FlagCall::SetEnabled(o, _) && o
            == object)
}

/// The flag is the value of the last call that sets it.
proof fn flag_is_the_last_set(calls: Seq<FlagCall>, place: int, object: int, enabled: bool)
    requires
        last_set(calls, place, object, enabled),
    ensures
        flag_after(calls, object) == Some(enabled),
    decreases calls.len(),
{
    if place < calls.len() - 1 {
        assert(calls.last() == calls[calls.len() - 1]);
        assert forall|i: int| place < i < calls.drop_last().len() implies !(
        #[trigger] calls.drop_last()[i] matches FlagCall::SetEnabled(o, _) && o == object) by {
            assert(calls.drop_last()[i] == calls[i]);
        }
        flag_is_the_last_set(calls.drop_last(), place, object, enabled);
    }
}

/// Where the native layer records each flag that it sets on the native object
/// and answers with the last, and a clone of a native handle points to the same
/// native object: if `set_enabled(enabled)` was the last to set the flag, on a
/// handler or on any of its clones, `enabled` gives back `enabled` on each of
/// them.
pub proof fn enabled_gives_back_what_was_set<H, W, N>(
    points_to: spec_fn(H) -> int,
    handlers: Seq<PacketTrailerHandler<H>>,
    set: int,
    enabled: bool,
    native_set_enabled: W,
    calls: Seq<FlagCall>,
    place: int,
    asked: int,
    native_enabled: N,
    answer: bool,
) where H: Clone, W: FnOnce(&H, bool), N: FnOnce(&H) -> bool
    requires
        forall|a: H, b: H| #[trigger] cloned(a, b) ==> points_to(a) == points_to(b),
        clones(handlers),
        0 <= set < handlers.len(),
        0 <= asked < handlers.len(),
        call_ensures(native_set_enabled, (&handlers[set]@, enabled), ()),
        call_ensures(native_set_enabled, (&handlers[set]@, enabled), ()) ==> last_set(
            calls,
            place,
            points_to(handlers[set]@),
            enabled,
        ),
        forall|flag: bool| #[trigger]
            call_ensures(native_enabled, (&handlers[asked]@,), flag) ==> (flag_after(
                calls,
                points_to(handlers[asked]@),
            ) matches Some(last) ==> flag == last),
        call_ensures(native_enabled, (&handlers[asked]@,), answer),
    ensures
        answer == enabled,
{
    clones_share_the_native_object(points_to, handlers, set);
    clones_share_the_native_object(points_to, handlers, asked);
    flag_is_the_last_set(calls, place, points_to(handlers[set]@), enabled);
}

/// Where, after a native set, the native layer answers with the flag that was
/// set, for every handle to the same native object: right after
/// `set_enabled(enabled)` on a handler, `enabled` gives back `enabled` on every
/// handler of that native object.
pub proof fn enabled_right_after_set_enabled<H, W, N>(
    points_to: spec_fn(H) -> int,
    handler: PacketTrailerHandler<H>,
    enabled: bool,
    native_set_enabled: W,
    asked: PacketTrailerHandler<H>,
    native_enabled: N,
    answer: bool,
) where W: FnOnce(&H, bool), N: FnOnce(&H) -> bool
    requires
        forall|handle: H, flag: bool|
            call_ensures(native_set_enabled, (&handler@, enabled), ()) && #[trigger] call_ensures(
                native_enabled,
                (&handle,),
                flag,
            ) && points_to(handle) == points_to(handler@) ==> flag == enabled,
        points_to(asked@) == points_to(handler@),
        call_ensures(native_set_enabled, (&handler@, enabled), ()),
        call_ensures(native_enabled, (&asked@,), answer),
    ensures
        answer == enabled,
{
}

} // verus!
