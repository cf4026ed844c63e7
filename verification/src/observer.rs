//! Callbacks that turn native timing events into the events observers take.
//!
//! A callback takes one native event and is used up by it, and its observer is
//! called by value. So one event makes one call of the observer and no more. A
//! callback that stays installed makes a callback for each event that comes in,
//! on a reference to its observer.
use vstd::prelude::*;
use crate::native::VideoPublishTimingEvent;
use crate::native::VideoPublishTimingEventV2;
use crate::native::VideoSubscribeTimingEvent;
use crate::timing::PublishTimingEvent;
use crate::timing::PublishTimingEventV2;
use crate::timing::SubscribeTimingEvent;

verus! {

/// Native callback that feeds an observer of publish timing events.
pub struct PublishTimingCallback<O> {
    /// Observer that receives the events.
    pub observer: O,
}

impl<O> PublishTimingCallback<O> {
    /// Callback for one event, on a reference to the observer.
    pub fn for_event(&self) -> (callback: PublishTimingCallback<&O>)
        ensures
            callback.observer == &self.observer,
    {
        PublishTimingCallback { observer: &self.observer }
    }
}

impl<O: FnOnce(PublishTimingEvent)> PublishTimingCallback<O> {
    /// Calls the observer, once, with the event that the native event stands for.
    pub fn on_publish_timing(self, event: VideoPublishTimingEvent)
        requires
            call_requires(self.observer, (crate::timing::publish_event(event),)),
        ensures
            call_ensures(self.observer, (crate::timing::publish_event(event),), ()),
    {
        (self.observer)(PublishTimingEvent::from(event))
    }
}

/// Native callback that feeds an observer of publish timing events with final
/// RTP identity.
pub struct PublishTimingCallbackV2<O> {
    /// Observer that receives the events.
    pub observer: O,
}

impl<O> PublishTimingCallbackV2<O> {
    /// Callback for one event, on a reference to the observer.
    pub fn for_event(&self) -> (callback: PublishTimingCallbackV2<&O>)
        ensures
            callback.observer == &self.observer,
    {
        PublishTimingCallbackV2 { observer: &self.observer }
    }
}

impl<O: FnOnce(PublishTimingEventV2)> PublishTimingCallbackV2<O> {
    /// Calls the observer, once, with the event that the native event stands for.
    pub fn on_publish_timing_v2(self, event: VideoPublishTimingEventV2)
        requires
            call_requires(self.observer, (crate::timing::publish_event_v2(event),)),
        ensures
            call_ensures(self.observer, (crate::timing::publish_event_v2(event),), ()),
    {
        (self.observer)(PublishTimingEventV2::from(event))
    }
}

/// Native callback that feeds an observer of subscribe timing events.
pub struct SubscribeTimingCallback<O> {
    /// Observer that receives the events.
    pub observer: O,
}

impl<O> SubscribeTimingCallback<O> {
    /// Callback for one event, on a reference to the observer.
    pub fn for_event(&self) -> (callback: SubscribeTimingCallback<&O>)
        ensures
            callback.observer == &self.observer,
    {
        SubscribeTimingCallback { observer: &self.observer }
    }
}

impl<O: FnOnce(SubscribeTimingEvent)> SubscribeTimingCallback<O> {
    /// Calls the observer, once, with the event that the native event stands for.
    pub fn on_subscribe_timing(self, event: VideoSubscribeTimingEvent)
        requires
            call_requires(self.observer, (crate::timing::subscribe_event(event),)),
        ensures
            call_ensures(self.observer, (crate::timing::subscribe_event(event),), ()),
    {
        (self.observer)(SubscribeTimingEvent::from(event))
    }
}

} // verus!
