//! Handler of the packet trailers of one RTP stream.
//!
//! The trailers themselves are the work of a native handler. Each operation
//! here takes the native operations that it may perform as closures over the
//! native handler, and its contract says which of them it performs, on which
//! values, and what it makes of the answers. The contracts hold for every
//! answer that a closure may give.
use vstd::prelude::*;
use crate::native::VideoSubscribeTimingStage;
use crate::observer::PublishTimingCallback;
use crate::observer::PublishTimingCallbackV2;
use crate::observer::SubscribeTimingCallback;
use crate::timing::SubscribeTimingStage;

verus! {

/// Handler for packet trailer embedding/extraction on RTP streams.
///
/// For sender side: Stores frame metadata keyed by capture timestamp
/// and embeds them as binary payload trailers on encoded frames before they
/// are sent. Use `store_frame_metadata()` to associate metadata with
/// a captured frame.
///
/// For receiver side: Extracts frame metadata from received frames
/// and makes them available for retrieval via `lookup_frame_metadata()`.
///
/// `H` is a handle to the native handler; the view is the handle that is held.
pub struct PacketTrailerHandler<H> {
    sys_handle: H,
}

impl<H> View for PacketTrailerHandler<H> {
    type V = H;

    closed spec fn view(&self) -> H {
        self.sys_handle
    }
}

impl<H: Clone> Clone for PacketTrailerHandler<H> {
    /// A handler on a clone of the native handle.
    fn clone(&self) -> (copy: Self)
        ensures
            cloned(self@, copy@),
    {
        PacketTrailerHandler { sys_handle: self.sys_handle.clone() }
    }
}

impl<H> PacketTrailerHandler<H> {
    /// Handler on the given native handle.
    pub(crate) fn new(sys_handle: H) -> (handler: Self)
        ensures
            handler@ == sys_handle,
    {
        PacketTrailerHandler { sys_handle }
    }

    /// Enable or disable timestamp embedding/extraction.
    pub fn set_enabled<N>(&self, enabled: bool, native_set_enabled: N) where
        N: FnOnce(&H, bool),

        requires
            call_requires(native_set_enabled, (&self@, enabled)),
        ensures
            call_ensures(native_set_enabled, (&self@, enabled), ()),
    {
        native_set_enabled(&self.sys_handle, enabled)
    }

    /// Check if timestamp embedding/extraction is enabled.
    pub fn enabled<N>(&self, native_enabled: N) -> (enabled: bool) where N: FnOnce(&H) -> bool
        requires
            call_requires(native_enabled, (&self@,)),
        ensures
            call_ensures(native_enabled, (&self@,), enabled),
    {
        native_enabled(&self.sys_handle)
    }

    /// Lookup the frame metadata for a given RTP timestamp (receiver side).
    /// Returns `Some((user_timestamp, frame_id, user_data))` if found,
    /// `None` otherwise. The native entry is removed after a successful lookup.
    ///
    /// The native lookup answers with the user timestamp, and with `u64::MAX`
    /// where it has no entry. The frame ID and the user data are those of the
    /// last successful lookup, so they are read only after an answer other than
    /// `u64::MAX`.
    pub fn lookup_frame_metadata<L, F, D>(
        &self,
        rtp_timestamp: u32,
        lookup_timestamp: L,
        last_lookup_frame_id: F,
        last_lookup_user_data: D,
    ) -> (metadata: Option<(u64, u32, Vec<u8>)>) where
        L: FnOnce(&H, u32) -> u64,
        F: FnOnce(&H) -> u32,
        D: FnOnce(&H) -> Vec<u8>,

        requires
            call_requires(lookup_timestamp, (&self@, rtp_timestamp)),
            forall|answer: u64| #[trigger]
                call_ensures(lookup_timestamp, (&self@, rtp_timestamp), answer) && answer
                    != u64::MAX ==> call_requires(last_lookup_frame_id, (&self@,))
                    && call_requires(last_lookup_user_data, (&self@,)),
        ensures
            lookup_outcome(
                self@,
                rtp_timestamp,
                lookup_timestamp,
                last_lookup_frame_id,
                last_lookup_user_data,
                metadata,
            ),
    {
        let user_timestamp: u64 = lookup_timestamp(&self.sys_handle, rtp_timestamp);
        if user_timestamp != u64::MAX {
            let frame_id: u32 = last_lookup_frame_id(&self.sys_handle);
            let user_data = last_lookup_user_data(&self.sys_handle);
            Some((user_timestamp, frame_id, user_data))
        } else {
            None
        }
    }

    /// Store frame metadata for a given capture timestamp (sender side).
    ///
    /// The `capture_timestamp_us` must be the TimestampAligner-adjusted
    /// timestamp (as produced by `VideoTrackSource::on_captured_frame`),
    /// NOT the original `timestamp_us` from the VideoFrame. The transformer
    /// looks up the metadata by the frame's `CaptureTime()` which is
    /// derived from the aligned value.
    pub fn store_frame_metadata<N>(
        &self,
        capture_timestamp_us: i64,
        user_timestamp: u64,
        frame_id: u32,
        user_data: &[u8],
        native_store_frame_metadata: N,
    ) where N: FnOnce(&H, i64, u64, u32, &[u8])
        requires
            call_requires(
                native_store_frame_metadata,
                (&self@, capture_timestamp_us, user_timestamp, frame_id, user_data),
            ),
        ensures
            call_ensures(
                native_store_frame_metadata,
                (&self@, capture_timestamp_us, user_timestamp, frame_id, user_data),
                (),
            ),
    {
        native_store_frame_metadata(
            &self.sys_handle,
            capture_timestamp_us,
            user_timestamp,
            frame_id,
            user_data,
        )
    }

    /// A clone of the native handle.
    pub fn sys_handle(&self) -> (handle: H) where H: Clone
        ensures
            cloned(self@, handle),
    {
        self.sys_handle.clone()
    }

    /// Set the callback receiving sender-side publish timing events.
    ///
    /// An observer is installed behind a callback that converts each native
    /// event; without one, the native callback is cleared.
    pub fn set_publish_timing_observer<O, S, C>(
        &self,
        observer: Option<O>,
        native_set_observer: S,
        native_clear_observer: C,
    ) where S: FnOnce(&H, PublishTimingCallback<O>), C: FnOnce(&H)
        requires
            observer matches Some(o) ==> call_requires(
                native_set_observer,
                (&self@, (PublishTimingCallback { observer: o })),
            ),
            observer is None ==> call_requires(native_clear_observer, (&self@,)),
        ensures
            publish_observer_outcome(self@, observer, native_set_observer, native_clear_observer),
    {
        if let Some(observer) = observer {
            native_set_observer(&self.sys_handle, PublishTimingCallback { observer })
        } else {
            native_clear_observer(&self.sys_handle)
        }
    }

    /// Set the callback receiving sender-side events with final RTP identity.
    ///
    /// An observer is installed behind a callback that converts each native
    /// event; without one, the native callback is cleared.
    pub fn set_publish_timing_observer_v2<O, S, C>(
        &self,
        observer: Option<O>,
        native_set_observer: S,
        native_clear_observer: C,
    ) where S: FnOnce(&H, PublishTimingCallbackV2<O>), C: FnOnce(&H)
        requires
            observer matches Some(o) ==> call_requires(
                native_set_observer,
                (&self@, (PublishTimingCallbackV2 { observer: o })),
            ),
            observer is None ==> call_requires(native_clear_observer, (&self@,)),
        ensures
            publish_v2_observer_outcome(self@, observer, native_set_observer, native_clear_observer),
    {
        if let Some(observer) = observer {
            native_set_observer(&self.sys_handle, PublishTimingCallbackV2 { observer })
        } else {
            native_clear_observer(&self.sys_handle)
        }
    }

    /// Set the callback receiving receiver-side subscribe timing events.
    ///
    /// An observer is installed behind a callback that converts each native
    /// event; without one, the native callback is cleared.
    pub fn set_subscribe_timing_observer<O, S, C>(
        &self,
        observer: Option<O>,
        native_set_observer: S,
        native_clear_observer: C,
    ) where S: FnOnce(&H, SubscribeTimingCallback<O>), C: FnOnce(&H)
        requires
            observer matches Some(o) ==> call_requires(
                native_set_observer,
                (&self@, (SubscribeTimingCallback { observer: o })),
            ),
            observer is None ==> call_requires(native_clear_observer, (&self@,)),
        ensures
            subscribe_observer_outcome(self@, observer, native_set_observer, native_clear_observer),
    {
        if let Some(observer) = observer {
            native_set_observer(&self.sys_handle, SubscribeTimingCallback { observer })
        } else {
            native_clear_observer(&self.sys_handle)
        }
    }

    /// Report that a remote frame reached a stage of the subscribe pipeline.
    pub fn emit_subscribe_timing<N>(
        &self,
        stage: SubscribeTimingStage,
        capture_timestamp_us: u64,
        frame_id: u32,
        native_emit_subscribe_timing: N,
    ) where N: FnOnce(&H, VideoSubscribeTimingStage, u64, u32)
        requires
            call_requires(
                native_emit_subscribe_timing,
                (
                    &self@,
                    (VideoSubscribeTimingStage {
                        repr: crate::timing::subscribe_stage_number(stage),
                    }),
                    capture_timestamp_us,
                    frame_id,
                ),
            ),
        ensures
            call_ensures(
                native_emit_subscribe_timing,
                (
                    &self@,
                    (VideoSubscribeTimingStage {
                        repr: crate::timing::subscribe_stage_number(stage),
                    }),
                    capture_timestamp_us,
                    frame_id,
                ),
                (),
            ),
    {
        native_emit_subscribe_timing(
            &self.sys_handle,
            stage.native_stage(),
            capture_timestamp_us,
            frame_id,
        )
    }
}

/// Whether a lookup on a native handle, made with the given native operations,
/// may return `metadata`: the native lookup was asked for the RTP timestamp;
/// nothing is returned where it answered `u64::MAX`; otherwise its answer is
/// returned, with the frame ID and the user data that the two other operations
/// then gave.
pub open spec fn lookup_outcome<H, L, F, D>(
    handle: H,
    rtp_timestamp: u32,
    lookup_timestamp: L,
    last_lookup_frame_id: F,
    last_lookup_user_data: D,
    metadata: Option<(u64, u32, Vec<u8>)>,
) -> bool where
    L: FnOnce(&H, u32) -> u64,
    F: FnOnce(&H) -> u32,
    D: FnOnce(&H) -> Vec<u8>,
 {
    exists|answer: u64| #[trigger]
        call_ensures(lookup_timestamp, (&handle, rtp_timestamp), answer) && match metadata {
            Some((user_timestamp, frame_id, user_data)) => {
                &&& answer != u64::MAX
                &&& user_timestamp == answer
                &&& call_ensures(last_lookup_frame_id, (&handle,), frame_id)
                &&& call_ensures(last_lookup_user_data, (&handle,), user_data)
            },
            None => answer == u64::MAX,
        }
}

/// What setting the observer of publish timing events on a native handle, with the
/// given native operations, did: an observer was installed behind its callback;
/// without one, the native callback was cleared.
pub open spec fn publish_observer_outcome<H, O, S, C>(
    handle: H,
    observer: Option<O>,
    native_set_observer: S,
    native_clear_observer: C,
) -> bool where S: FnOnce(&H, PublishTimingCallback<O>), C: FnOnce(&H) {
    match observer {
        Some(o) => call_ensures(
            native_set_observer,
            (&handle, (PublishTimingCallback { observer: o })),
            (),
        ),
        None => call_ensures(native_clear_observer, (&handle,), ()),
    }
}

/// What setting the observer of publish timing events with final RTP identity on a native handle, with the
/// given native operations, did: an observer was installed behind its callback;
/// without one, the native callback was cleared.
pub open spec fn publish_v2_observer_outcome<H, O, S, C>(
    handle: H,
    observer: Option<O>,
    native_set_observer: S,
    native_clear_observer: C,
) -> bool where S: FnOnce(&H, PublishTimingCallbackV2<O>), C: FnOnce(&H) {
    match observer {
        Some(o) => call_ensures(
            native_set_observer,
            (&handle, (PublishTimingCallbackV2 { observer: o })),
            (),
        ),
        None => call_ensures(native_clear_observer, (&handle,), ()),
    }
}

/// What setting the observer of subscribe timing events on a native handle, with the
/// given native operations, did: an observer was installed behind its callback;
/// without one, the native callback was cleared.
pub open spec fn subscribe_observer_outcome<H, O, S, C>(
    handle: H,
    observer: Option<O>,
    native_set_observer: S,
    native_clear_observer: C,
) -> bool where S: FnOnce(&H, SubscribeTimingCallback<O>), C: FnOnce(&H) {
    match observer {
        Some(o) => call_ensures(
            native_set_observer,
            (&handle, (SubscribeTimingCallback { observer: o })),
            (),
        ),
        None => call_ensures(native_clear_observer, (&handle,), ()),
    }
}

} // verus!
