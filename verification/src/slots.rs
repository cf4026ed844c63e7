//! Which observers a native handler serves.
//!
//! A native handler keeps one callback for each kind of timing event. The laws
//! here name, as their premise, that a native operation which sets or clears a
//! callback changes that callback alone, and that the native layer gives an event
//! to the callback of its kind. They conclude from the contracts of the
//! operations that set observers, and of the callbacks.
use vstd::prelude::*;
use crate::handler::PacketTrailerHandler;
use crate::native::VideoPublishTimingEvent;
use crate::native::VideoPublishTimingEventV2;
use crate::native::VideoSubscribeTimingEvent;
use crate::observer::PublishTimingCallback;
use crate::observer::PublishTimingCallbackV2;
use crate::observer::SubscribeTimingCallback;
use crate::timing::PublishTimingEvent;
use crate::timing::PublishTimingEventV2;
use crate::timing::SubscribeTimingEvent;

verus! {

/// Callbacks that are installed in a native handler.
pub struct ObserverSlots<P, V, S> {
    /// Callback for publish timing events.
    pub publish: Option<PublishTimingCallback<P>>,
    /// Callback for publish timing events with final RTP identity.
    pub publish_v2: Option<PublishTimingCallbackV2<V>>,
    /// Callback for subscribe timing events.
    pub subscribe: Option<SubscribeTimingCallback<S>>,
}

/// Calls of the observer that the given native events make, in their order: for
/// each, the observer and the event that it is called with.
pub open spec fn publish_deliveries<P, V, S>(
    slots: ObserverSlots<P, V, S>,
    events: Seq<VideoPublishTimingEvent>,
) -> Seq<(P, PublishTimingEvent)> {
    match slots.publish {
        Some(callback) => Seq::new(
            events.len(),
            |i: int| (callback.observer, crate::timing::publish_event(events[i])),
        ),
        None => Seq::empty(),
    }
}

/// Whether a completed native operation on the callback for publish timing
/// events turns `before` into `after`: one that sets it installs the callback
/// that it was handed, one that clears it leaves none, and neither changes the
/// other callbacks.
pub open spec fn changes_publish_slot<P, V, S, H, A, C>(
    handle: H,
    observer: Option<P>,
    native_set_observer: A,
    native_clear_observer: C,
    before: ObserverSlots<P, V, S>,
    after: ObserverSlots<P, V, S>,
) -> bool where A: FnOnce(&H, PublishTimingCallback<P>), C: FnOnce(&H) {
    match observer {
        Some(o) => call_ensures(
            native_set_observer,
            (&handle, (PublishTimingCallback { observer: o })),
            (),
        ) ==> after == (ObserverSlots { publish: Some(PublishTimingCallback { observer: o }), ..before }),
        None => call_ensures(native_clear_observer, (&handle,), ()) ==> after == (ObserverSlots {
            publish: None,
            ..before
        }),
    }
}

/// Calls of the observer that the given native events make, in their order: for
/// each, the observer and the event that it is called with.
pub open spec fn publish_v2_deliveries<P, V, S>(
    slots: ObserverSlots<P, V, S>,
    events: Seq<VideoPublishTimingEventV2>,
) -> Seq<(V, PublishTimingEventV2)> {
    match slots.publish_v2 {
        Some(callback) => Seq::new(
            events.len(),
            |i: int| (callback.observer, crate::timing::publish_event_v2(events[i])),
        ),
        None => Seq::empty(),
    }
}

/// Whether a completed native operation on the callback for publish timing with final RTP identity
/// events turns `before` into `after`: one that sets it installs the callback
/// that it was handed, one that clears it leaves none, and neither changes the
/// other callbacks.
pub open spec fn changes_publish_v2_slot<P, V, S, H, A, C>(
    handle: H,
    observer: Option<V>,
    native_set_observer: A,
    native_clear_observer: C,
    before: ObserverSlots<P, V, S>,
    after: ObserverSlots<P, V, S>,
) -> bool where A: FnOnce(&H, PublishTimingCallbackV2<V>), C: FnOnce(&H) {
    match observer {
        Some(o) => call_ensures(
            native_set_observer,
            (&handle, (PublishTimingCallbackV2 { observer: o })),
            (),
        ) ==> after == (ObserverSlots { publish_v2: Some(PublishTimingCallbackV2 { observer: o }), ..before }),
        None => call_ensures(native_clear_observer, (&handle,), ()) ==> after == (ObserverSlots {
            publish_v2: None,
            ..before
        }),
    }
}

/// Calls of the observer that the given native events make, in their order: for
/// each, the observer and the event that it is called with.
pub open spec fn subscribe_deliveries<P, V, S>(
    slots: ObserverSlots<P, V, S>,
    events: Seq<VideoSubscribeTimingEvent>,
) -> Seq<(S, SubscribeTimingEvent)> {
    match slots.subscribe {
        Some(callback) => Seq::new(
            events.len(),
            |i: int| (callback.observer, crate::timing::subscribe_event(events[i])),
        ),
        None => Seq::empty(),
    }
}

/// Whether a completed native operation on the callback for subscribe timing
/// events turns `before` into `after`: one that sets it installs the callback
/// that it was handed, one that clears it leaves none, and neither changes the
/// other callbacks.
pub open spec fn changes_subscribe_slot<P, V, S, H, A, C>(
    handle: H,
    observer: Option<S>,
    native_set_observer: A,
    native_clear_observer: C,
    before: ObserverSlots<P, V, S>,
    after: ObserverSlots<P, V, S>,
) -> bool where A: FnOnce(&H, SubscribeTimingCallback<S>), C: FnOnce(&H) {
    match observer {
        Some(o) => call_ensures(
            native_set_observer,
            (&handle, (SubscribeTimingCallback { observer: o })),
            (),
        ) ==> after == (ObserverSlots { subscribe: Some(SubscribeTimingCallback { observer: o }), ..before }),
        None => call_ensures(native_clear_observer, (&handle,), ()) ==> after == (ObserverSlots {
            subscribe: None,
            ..before
        }),
    }
}

/// `set_publish_timing_observer` decides alone which observer of publish timing events
/// is served from then on: with an observer, each event makes one call of it,
/// with the event that the native event stands for and in the order of the
/// events; without one, no event makes a call. The observers of the other kinds
/// stay as they are.
pub proof fn publish_observer_is_served<P, V, S, H, A, C>(
    handler: PacketTrailerHandler<H>,
    observer: Option<P>,
    native_set_observer: A,
    native_clear_observer: C,
    before: ObserverSlots<P, V, S>,
    after: ObserverSlots<P, V, S>,
    events: Seq<VideoPublishTimingEvent>,
) where A: FnOnce(&H, PublishTimingCallback<P>), C: FnOnce(&H)
    requires
        crate::handler::publish_observer_outcome(
            handler@,
            observer,
            native_set_observer,
            native_clear_observer,
        ),
        changes_publish_slot(
            handler@,
            observer,
            native_set_observer,
            native_clear_observer,
            before,
            after,
        ),
    ensures
        observer matches Some(o) ==> publish_deliveries(after, events) == Seq::new(
            events.len(),
            |i: int| (o, crate::timing::publish_event(events[i])),
        ),
        observer is None ==> publish_deliveries(after, events).len() == 0,
        after.publish_v2 == before.publish_v2,
        after.subscribe == before.subscribe,
{
}

/// `set_publish_timing_observer_v2` decides alone which observer of publish timing with final RTP identity events
/// is served from then on: with an observer, each event makes one call of it,
/// with the event that the native event stands for and in the order of the
/// events; without one, no event makes a call. The observers of the other kinds
/// stay as they are.
pub proof fn publish_v2_observer_is_served<P, V, S, H, A, C>(
    handler: PacketTrailerHandler<H>,
    observer: Option<V>,
    native_set_observer: A,
    native_clear_observer: C,
    before: ObserverSlots<P, V, S>,
    after: ObserverSlots<P, V, S>,
    events: Seq<VideoPublishTimingEventV2>,
) where A: FnOnce(&H, PublishTimingCallbackV2<V>), C: FnOnce(&H)
    requires
        crate::handler::publish_v2_observer_outcome(
            handler@,
            observer,
            native_set_observer,
            native_clear_observer,
        ),
        changes_publish_v2_slot(
            handler@,
            observer,
            native_set_observer,
            native_clear_observer,
            before,
            after,
        ),
    ensures
        observer matches Some(o) ==> publish_v2_deliveries(after, events) == Seq::new(
            events.len(),
            |i: int| (o, crate::timing::publish_event_v2(events[i])),
        ),
        observer is None ==> publish_v2_deliveries(after, events).len() == 0,
        after.publish == before.publish,
        after.subscribe == before.subscribe,
{
}

/// `set_subscribe_timing_observer` decides alone which observer of subscribe timing events
/// is served from then on: with an observer, each event makes one call of it,
/// with the event that the native event stands for and in the order of the
/// events; without one, no event makes a call. The observers of the other kinds
/// stay as they are.
pub proof fn subscribe_observer_is_served<P, V, S, H, A, C>(
    handler: PacketTrailerHandler<H>,
    observer: Option<S>,
    native_set_observer: A,
    native_clear_observer: C,
    before: ObserverSlots<P, V, S>,
    after: ObserverSlots<P, V, S>,
    events: Seq<VideoSubscribeTimingEvent>,
) where A: FnOnce(&H, SubscribeTimingCallback<S>), C: FnOnce(&H)
    requires
        crate::handler::subscribe_observer_outcome(
            handler@,
            observer,
            native_set_observer,
            native_clear_observer,
        ),
        changes_subscribe_slot(
            handler@,
            observer,
            native_set_observer,
            native_clear_observer,
            before,
            after,
        ),
    ensures
        observer matches Some(o) ==> subscribe_deliveries(after, events) == Seq::new(
            events.len(),
            |i: int| (o, crate::timing::subscribe_event(events[i])),
        ),
        observer is None ==> subscribe_deliveries(after, events).len() == 0,
        after.publish == before.publish,
        after.publish_v2 == before.publish_v2,
{
}

/// After `set_publish_timing_observer` with an observer and then without one,
/// no event makes a call, and the observers of the other kinds are those from
/// before the two.
pub proof fn clearing_ends_publish_delivery<P, V, S, H, A1, C1, A2, C2>(
    first: PacketTrailerHandler<H>,
    observer: P,
    first_native_set: A1,
    first_native_clear: C1,
    second: PacketTrailerHandler<H>,
    second_native_set: A2,
    second_native_clear: C2,
    before: ObserverSlots<P, V, S>,
    installed: ObserverSlots<P, V, S>,
    cleared: ObserverSlots<P, V, S>,
    events: Seq<VideoPublishTimingEvent>,
) where
    A1: FnOnce(&H, PublishTimingCallback<P>),
    C1: FnOnce(&H),
    A2: FnOnce(&H, PublishTimingCallback<P>),
    C2: FnOnce(&H),

    requires
        crate::handler::publish_observer_outcome(
            first@,
            Some(observer),
            first_native_set,
            first_native_clear,
        ),
        changes_publish_slot(
            first@,
            Some(observer),
            first_native_set,
            first_native_clear,
            before,
            installed,
        ),
        crate::handler::publish_observer_outcome(
            second@,
            None::<P>,
            second_native_set,
            second_native_clear,
        ),
        changes_publish_slot(
            second@,
            None::<P>,
            second_native_set,
            second_native_clear,
            installed,
            cleared,
        ),
    ensures
        publish_deliveries(cleared, events).len() == 0,
        cleared.publish_v2 == before.publish_v2,
        cleared.subscribe == before.subscribe,
{
}

/// After `set_publish_timing_observer_v2` with an observer and then without one,
/// no event makes a call, and the observers of the other kinds are those from
/// before the two.
pub proof fn clearing_ends_publish_v2_delivery<P, V, S, H, A1, C1, A2, C2>(
    first: PacketTrailerHandler<H>,
    observer: V,
    first_native_set: A1,
    first_native_clear: C1,
    second: PacketTrailerHandler<H>,
    second_native_set: A2,
    second_native_clear: C2,
    before: ObserverSlots<P, V, S>,
    installed: ObserverSlots<P, V, S>,
    cleared: ObserverSlots<P, V, S>,
    events: Seq<VideoPublishTimingEventV2>,
) where
    A1: FnOnce(&H, PublishTimingCallbackV2<V>),
    C1: FnOnce(&H),
    A2: FnOnce(&H, PublishTimingCallbackV2<V>),
    C2: FnOnce(&H),

    requires
        crate::handler::publish_v2_observer_outcome(
            first@,
            Some(observer),
            first_native_set,
            first_native_clear,
        ),
        changes_publish_v2_slot(
            first@,
            Some(observer),
            first_native_set,
            first_native_clear,
            before,
            installed,
        ),
        crate::handler::publish_v2_observer_outcome(
            second@,
            None::<V>,
            second_native_set,
            second_native_clear,
        ),
        changes_publish_v2_slot(
            second@,
            None::<V>,
            second_native_set,
            second_native_clear,
            installed,
            cleared,
        ),
    ensures
        publish_v2_deliveries(cleared, events).len() == 0,
        cleared.publish == before.publish,
        cleared.subscribe == before.subscribe,
{
}

/// After `set_subscribe_timing_observer` with an observer and then without one,
/// no event makes a call, and the observers of the other kinds are those from
/// before the two.
pub proof fn clearing_ends_subscribe_delivery<P, V, S, H, A1, C1, A2, C2>(
    first: PacketTrailerHandler<H>,
    observer: S,
    first_native_set: A1,
    first_native_clear: C1,
    second: PacketTrailerHandler<H>,
    second_native_set: A2,
    second_native_clear: C2,
    before: ObserverSlots<P, V, S>,
    installed: ObserverSlots<P, V, S>,
    cleared: ObserverSlots<P, V, S>,
    events: Seq<VideoSubscribeTimingEvent>,
) where
    A1: FnOnce(&H, SubscribeTimingCallback<S>),
    C1: FnOnce(&H),
    A2: FnOnce(&H, SubscribeTimingCallback<S>),
    C2: FnOnce(&H),

    requires
        crate::handler::subscribe_observer_outcome(
            first@,
            Some(observer),
            first_native_set,
            first_native_clear,
        ),
        changes_subscribe_slot(
            first@,
            Some(observer),
            first_native_set,
            first_native_clear,
            before,
            installed,
        ),
        crate::handler::subscribe_observer_outcome(
            second@,
            None::<S>,
            second_native_set,
            second_native_clear,
        ),
        changes_subscribe_slot(
            second@,
            None::<S>,
            second_native_set,
            second_native_clear,
            installed,
            cleared,
        ),
    ensures
        subscribe_deliveries(cleared, events).len() == 0,
        cleared.publish == before.publish,
        cleared.publish_v2 == before.publish_v2,
{
}

/// `set_publish_timing_observer_v2`, with an observer or without one, leaves an
/// observer of `set_publish_timing_observer` in place: each publish timing event
/// still makes one call of it. With an observer, both are served.
pub proof fn v2_observer_leaves_the_legacy_observer<P, V, S, H, A1, C1, A2, C2>(
    first: PacketTrailerHandler<H>,
    legacy: P,
    first_native_set: A1,
    first_native_clear: C1,
    second: PacketTrailerHandler<H>,
    observer: Option<V>,
    second_native_set: A2,
    second_native_clear: C2,
    before: ObserverSlots<P, V, S>,
    installed: ObserverSlots<P, V, S>,
    after: ObserverSlots<P, V, S>,
    events: Seq<VideoPublishTimingEvent>,
    events_v2: Seq<VideoPublishTimingEventV2>,
) where
    A1: FnOnce(&H, PublishTimingCallback<P>),
    C1: FnOnce(&H),
    A2: FnOnce(&H, PublishTimingCallbackV2<V>),
    C2: FnOnce(&H),

    requires
        crate::handler::publish_observer_outcome(
            first@,
            Some(legacy),
            first_native_set,
            first_native_clear,
        ),
        changes_publish_slot(
            first@,
            Some(legacy),
            first_native_set,
            first_native_clear,
            before,
            installed,
        ),
        crate::handler::publish_v2_observer_outcome(
            second@,
            observer,
            second_native_set,
            second_native_clear,
        ),
        changes_publish_v2_slot(
            second@,
            observer,
            second_native_set,
            second_native_clear,
            installed,
            after,
        ),
    ensures
        publish_deliveries(after, events) == Seq::new(
            events.len(),
            |i: int| (legacy, crate::timing::publish_event(events[i])),
        ),
        observer matches Some(o) ==> publish_v2_deliveries(after, events_v2) == Seq::new(
            events_v2.len(),
            |i: int| (o, crate::timing::publish_event_v2(events_v2[i])),
        ),
{
}

} // verus!
