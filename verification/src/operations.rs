//! What each operation does, in terms of its inputs and results.
//!
//! The laws here speak of calls: what a call returned, what it handed to the
//! closures that it was given, and how the results of two calls relate. Native
//! variants are given by their numbers. Where a law joins operations through the
//! native layer, its premise says, for every value, what that layer does with
//! what it was handed.
use vstd::prelude::*;
use crate::create::PacketTrailerSenderError;
use crate::handler::PacketTrailerHandler;
use crate::native::MediaType;
use crate::native::VideoPublishTimingEvent;
use crate::native::VideoPublishTimingEventV2;
use crate::native::VideoPublishTimingStage;
use crate::native::VideoSubscribeTimingEvent;
use crate::native::VideoSubscribeTimingStage;
use crate::observer::PublishTimingCallback;
use crate::observer::PublishTimingCallbackV2;
use crate::observer::SubscribeTimingCallback;
use crate::timing::PublishTimingEvent;
use crate::timing::PublishTimingEventV2;
use crate::timing::PublishTimingStage;
use crate::timing::SubscribeTimingEvent;
use crate::timing::SubscribeTimingStage;

verus! {

/// The native variants have distinct numbers, in the order of the pipelines and
/// of the media types.
pub proof fn native_numbers()
    ensures
        MediaType::AUDIO == 0,
        MediaType::VIDEO == 1,
        MediaType::DATA == 2,
        MediaType::UNSUPPORTED == 3,
        VideoPublishTimingStage::ENCODER_UPLOAD == 0,
        VideoPublishTimingStage::ENCODER_OUTPUT == 1,
        VideoPublishTimingStage::WEBRTC_PACKETIZE == 2,
        VideoSubscribeTimingStage::WEBRTC_RECEIVE == 0,
        VideoSubscribeTimingStage::DECODER_UPLOAD == 1,
        VideoSubscribeTimingStage::DECODER_OUTPUT == 2,
{
}

/// The publish stage that is reported is the one that the native number names, and
/// the last one for every other number.
pub proof fn publish_stage_is_the_one_named(
    stage: VideoPublishTimingStage,
    reached: PublishTimingStage,
)
    requires
        call_ensures(
            <PublishTimingStage as From<VideoPublishTimingStage>>::from,
            (stage,),
            reached,
        ),
    ensures
        stage.repr == 0 <==> reached == PublishTimingStage::EncoderUpload,
        stage.repr == 1 <==> reached == PublishTimingStage::EncoderOutput,
        stage.repr != 0 && stage.repr != 1 <==> reached == PublishTimingStage::WebrtcPacketize,
{
}

/// The subscribe stage that is reported is the one that the native number names, and
/// the last one for every other number.
pub proof fn subscribe_stage_is_the_one_named(
    stage: VideoSubscribeTimingStage,
    reached: SubscribeTimingStage,
)
    requires
        call_ensures(
            <SubscribeTimingStage as From<VideoSubscribeTimingStage>>::from,
            (stage,),
            reached,
        ),
    ensures
        stage.repr == 0 <==> reached == SubscribeTimingStage::WebrtcReceive,
        stage.repr == 1 <==> reached == SubscribeTimingStage::DecoderUpload,
        stage.repr != 0 && stage.repr != 1 <==> reached == SubscribeTimingStage::DecoderOutput,
{
}

/// A publish timing event keeps every field of the native event: the stage that
/// its number names, both times, and the frame ID unless it is zero.
pub proof fn publish_event_keeps_every_field(event: VideoPublishTimingEvent, reported: PublishTimingEvent)
    requires
        call_ensures(
            <PublishTimingEvent as From<VideoPublishTimingEvent>>::from,
            (event,),
            reported,
        ),
    ensures
        reported.timestamp_us == event.timestamp_us,
        reported.capture_timestamp_us == event.capture_timestamp_us,
        event.frame_id == 0 ==> reported.frame_id is None,
        event.frame_id != 0 ==> reported.frame_id == Some(event.frame_id),
        event.stage.repr == 0 <==> reported.stage == PublishTimingStage::EncoderUpload,
        event.stage.repr == 1 <==> reported.stage == PublishTimingStage::EncoderOutput,
        event.stage.repr != 0 && event.stage.repr != 1 <==> reported.stage
            == PublishTimingStage::WebrtcPacketize,
{
}

/// A callback hands its observer a publish timing event that keeps every field
/// of the native event.
pub proof fn publish_observer_sees_every_field<O: FnOnce(PublishTimingEvent)>(
    callback: PublishTimingCallback<O>,
    event: VideoPublishTimingEvent,
)
    requires
        call_ensures(PublishTimingCallback::<O>::on_publish_timing, (callback, event), ()),
    ensures
        exists|reported: PublishTimingEvent|
            {
                &&& #[trigger] call_ensures(callback.observer, (reported,), ())
                &&& reported.timestamp_us == event.timestamp_us
                &&& reported.capture_timestamp_us == event.capture_timestamp_us
                &&& event.frame_id == 0 ==> reported.frame_id is None
                &&& event.frame_id != 0 ==> reported.frame_id == Some(event.frame_id)
                &&& event.stage.repr == 0 <==> reported.stage == PublishTimingStage::EncoderUpload
                &&& event.stage.repr == 1 <==> reported.stage == PublishTimingStage::EncoderOutput
                &&& event.stage.repr != 0 && event.stage.repr != 1 <==> reported.stage
                    == PublishTimingStage::WebrtcPacketize
            },
{
}

/// The callback for one event has the observer of the callback that it was made
/// from.
pub proof fn publish_callback_for_an_event_keeps_the_observer<O>(
    callback: PublishTimingCallback<O>,
    single: PublishTimingCallback<&O>,
)
    requires
        call_ensures(PublishTimingCallback::<O>::for_event, (&callback,), single),
    ensures
        *single.observer == callback.observer,
{
}

/// `set_publish_timing_observer` installs the observer that it is given behind a
/// callback on it, and clears the native callback where it is given none.
pub proof fn publish_observer_is_installed_or_cleared<H, O, S, C>(
    handler: PacketTrailerHandler<H>,
    observer: Option<O>,
    native_set_observer: S,
    native_clear_observer: C,
) where S: FnOnce(&H, PublishTimingCallback<O>), C: FnOnce(&H)
    requires
        call_ensures(
            PacketTrailerHandler::<H>::set_publish_timing_observer::<O, S, C>,
            (&handler, observer, native_set_observer, native_clear_observer),
            (),
        ),
    ensures
        observer matches Some(o) ==> exists|callback: PublishTimingCallback<O>| #[trigger]
            call_ensures(native_set_observer, (&handler@, callback), ()) && callback.observer == o,
        observer is None ==> call_ensures(native_clear_observer, (&handler@,), ()),
{
    if let Some(o) = observer {
        assert(call_ensures(
            native_set_observer,
            (&handler@, (PublishTimingCallback { observer: o })),
            (),
        ));
    }
}

/// A publish timing event with RTP identity keeps every field of the native event: the stage that
/// its number names, both times, and the frame ID unless it is zero,
/// and what the flags mark.
pub proof fn publish_v2_event_keeps_every_field(event: VideoPublishTimingEventV2, reported: PublishTimingEventV2)
    requires
        call_ensures(
            <PublishTimingEventV2 as From<VideoPublishTimingEventV2>>::from,
            (event,),
            reported,
        ),
    ensures
        reported.timestamp_us == event.timestamp_us,
        reported.capture_timestamp_us == event.capture_timestamp_us,
        event.frame_id == 0 ==> reported.frame_id is None,
        event.frame_id != 0 ==> reported.frame_id == Some(event.frame_id),
        event.stage.repr == 0 <==> reported.stage == PublishTimingStage::EncoderUpload,
        event.stage.repr == 1 <==> reported.stage == PublishTimingStage::EncoderOutput,
        event.stage.repr != 0 && event.stage.repr != 1 <==> reported.stage
            == PublishTimingStage::WebrtcPacketize,
        event.has_rtp_timestamp ==> reported.rtp_timestamp == Some(event.rtp_timestamp),
        event.has_rtp_timestamp ==> reported.ssrc == Some(event.ssrc),
        !event.has_rtp_timestamp ==> reported.rtp_timestamp is None && reported.ssrc is None,
        event.has_keyframe ==> reported.is_keyframe == Some(event.is_keyframe),
        !event.has_keyframe ==> reported.is_keyframe is None,
{
}

/// A callback hands its observer a publish timing event with RTP identity that keeps every field
/// of the native event.
pub proof fn publish_v2_observer_sees_every_field<O: FnOnce(PublishTimingEventV2)>(
    callback: PublishTimingCallbackV2<O>,
    event: VideoPublishTimingEventV2,
)
    requires
        call_ensures(PublishTimingCallbackV2::<O>::on_publish_timing_v2, (callback, event), ()),
    ensures
        exists|reported: PublishTimingEventV2|
            {
                &&& #[trigger] call_ensures(callback.observer, (reported,), ())
                &&& reported.timestamp_us == event.timestamp_us
                &&& reported.capture_timestamp_us == event.capture_timestamp_us
                &&& event.frame_id == 0 ==> reported.frame_id is None
                &&& event.frame_id != 0 ==> reported.frame_id == Some(event.frame_id)
                &&& event.stage.repr == 0 <==> reported.stage == PublishTimingStage::EncoderUpload
                &&& event.stage.repr == 1 <==> reported.stage == PublishTimingStage::EncoderOutput
                &&& event.stage.repr != 0 && event.stage.repr != 1 <==> reported.stage
                    == PublishTimingStage::WebrtcPacketize
                &&& event.has_rtp_timestamp ==> reported.rtp_timestamp == Some(event.rtp_timestamp)
                &&& event.has_rtp_timestamp ==> reported.ssrc == Some(event.ssrc)
                &&& !event.has_rtp_timestamp ==> reported.rtp_timestamp is None && reported.ssrc is None
                &&& event.has_keyframe ==> reported.is_keyframe == Some(event.is_keyframe)
                &&& !event.has_keyframe ==> reported.is_keyframe is None
            },
{
}

/// The callback for one event has the observer of the callback that it was made
/// from.
pub proof fn publish_v2_callback_for_an_event_keeps_the_observer<O>(
    callback: PublishTimingCallbackV2<O>,
    single: PublishTimingCallbackV2<&O>,
)
    requires
        call_ensures(PublishTimingCallbackV2::<O>::for_event, (&callback,), single),
    ensures
        *single.observer == callback.observer,
{
}

/// `set_publish_timing_observer_v2` installs the observer that it is given behind a
/// callback on it, and clears the native callback where it is given none.
pub proof fn publish_v2_observer_is_installed_or_cleared<H, O, S, C>(
    handler: PacketTrailerHandler<H>,
    observer: Option<O>,
    native_set_observer: S,
    native_clear_observer: C,
) where S: FnOnce(&H, PublishTimingCallbackV2<O>), C: FnOnce(&H)
    requires
        call_ensures(
            PacketTrailerHandler::<H>::set_publish_timing_observer_v2::<O, S, C>,
            (&handler, observer, native_set_observer, native_clear_observer),
            (),
        ),
    ensures
        observer matches Some(o) ==> exists|callback: PublishTimingCallbackV2<O>| #[trigger]
            call_ensures(native_set_observer, (&handler@, callback), ()) && callback.observer == o,
        observer is None ==> call_ensures(native_clear_observer, (&handler@,), ()),
{
    if let Some(o) = observer {
        assert(call_ensures(
            native_set_observer,
            (&handler@, (PublishTimingCallbackV2 { observer: o })),
            (),
        ));
    }
}

/// A subscribe timing event keeps every field of the native event: the stage that
/// its number names, both times, and the frame ID unless it is zero.
pub proof fn subscribe_event_keeps_every_field(event: VideoSubscribeTimingEvent, reported: SubscribeTimingEvent)
    requires
        call_ensures(
            <SubscribeTimingEvent as From<VideoSubscribeTimingEvent>>::from,
            (event,),
            reported,
        ),
    ensures
        reported.timestamp_us == event.timestamp_us,
        reported.capture_timestamp_us == event.capture_timestamp_us,
        event.frame_id == 0 ==> reported.frame_id is None,
        event.frame_id != 0 ==> reported.frame_id == Some(event.frame_id),
        event.stage.repr == 0 <==> reported.stage == SubscribeTimingStage::WebrtcReceive,
        event.stage.repr == 1 <==> reported.stage == SubscribeTimingStage::DecoderUpload,
        event.stage.repr != 0 && event.stage.repr != 1 <==> reported.stage
            == SubscribeTimingStage::DecoderOutput,
{
}

/// A callback hands its observer a subscribe timing event that keeps every field
/// of the native event.
pub proof fn subscribe_observer_sees_every_field<O: FnOnce(SubscribeTimingEvent)>(
    callback: SubscribeTimingCallback<O>,
    event: VideoSubscribeTimingEvent,
)
    requires
        call_ensures(SubscribeTimingCallback::<O>::on_subscribe_timing, (callback, event), ()),
    ensures
        exists|reported: SubscribeTimingEvent|
            {
                &&& #[trigger] call_ensures(callback.observer, (reported,), ())
                &&& reported.timestamp_us == event.timestamp_us
                &&& reported.capture_timestamp_us == event.capture_timestamp_us
                &&& event.frame_id == 0 ==> reported.frame_id is None
                &&& event.frame_id != 0 ==> reported.frame_id == Some(event.frame_id)
                &&& event.stage.repr == 0 <==> reported.stage == SubscribeTimingStage::WebrtcReceive
                &&& event.stage.repr == 1 <==> reported.stage == SubscribeTimingStage::DecoderUpload
                &&& event.stage.repr != 0 && event.stage.repr != 1 <==> reported.stage
                    == SubscribeTimingStage::DecoderOutput
            },
{
}

/// The callback for one event has the observer of the callback that it was made
/// from.
pub proof fn subscribe_callback_for_an_event_keeps_the_observer<O>(
    callback: SubscribeTimingCallback<O>,
    single: SubscribeTimingCallback<&O>,
)
    requires
        call_ensures(SubscribeTimingCallback::<O>::for_event, (&callback,), single),
    ensures
        *single.observer == callback.observer,
{
}

/// `set_subscribe_timing_observer` installs the observer that it is given behind a
/// callback on it, and clears the native callback where it is given none.
pub proof fn subscribe_observer_is_installed_or_cleared<H, O, S, C>(
    handler: PacketTrailerHandler<H>,
    observer: Option<O>,
    native_set_observer: S,
    native_clear_observer: C,
) where S: FnOnce(&H, SubscribeTimingCallback<O>), C: FnOnce(&H)
    requires
        call_ensures(
            PacketTrailerHandler::<H>::set_subscribe_timing_observer::<O, S, C>,
            (&handler, observer, native_set_observer, native_clear_observer),
            (),
        ),
    ensures
        observer matches Some(o) ==> exists|callback: SubscribeTimingCallback<O>| #[trigger]
            call_ensures(native_set_observer, (&handler@, callback), ()) && callback.observer == o,
        observer is None ==> call_ensures(native_clear_observer, (&handler@,), ()),
{
    if let Some(o) = observer {
        assert(call_ensures(
            native_set_observer,
            (&handler@, (SubscribeTimingCallback { observer: o })),
            (),
        ));
    }
}

/// The two publish events of one native observation carry the same stage, times
/// and frame ID.
pub proof fn both_publish_events_agree(
    legacy: VideoPublishTimingEvent,
    event: VideoPublishTimingEventV2,
    reported: PublishTimingEvent,
    reported_v2: PublishTimingEventV2,
)
    requires
        legacy.stage == event.stage,
        legacy.timestamp_us == event.timestamp_us,
        legacy.capture_timestamp_us == event.capture_timestamp_us,
        legacy.frame_id == event.frame_id,
        call_ensures(
            <PublishTimingEvent as From<VideoPublishTimingEvent>>::from,
            (legacy,),
            reported,
        ),
        call_ensures(
            <PublishTimingEventV2 as From<VideoPublishTimingEventV2>>::from,
            (event,),
            reported_v2,
        ),
    ensures
        reported.stage == reported_v2.stage,
        reported.timestamp_us == reported_v2.timestamp_us,
        reported.capture_timestamp_us == reported_v2.capture_timestamp_us,
        reported.frame_id == reported_v2.frame_id,
{
}

/// The native number of a subscribe stage is the one that names it, and comes
/// back as that stage.
pub proof fn native_subscribe_stage_comes_back(
    stage: SubscribeTimingStage,
    native: VideoSubscribeTimingStage,
    reached: SubscribeTimingStage,
)
    requires
        call_ensures(SubscribeTimingStage::native_stage, (stage,), native),
        call_ensures(
            <SubscribeTimingStage as From<VideoSubscribeTimingStage>>::from,
            (native,),
            reached,
        ),
    ensures
        stage == SubscribeTimingStage::WebrtcReceive ==> native.repr == 0,
        stage == SubscribeTimingStage::DecoderUpload ==> native.repr == 1,
        stage == SubscribeTimingStage::DecoderOutput ==> native.repr == 2,
        reached == stage,
{
}

/// What `emit_subscribe_timing` hands to the native layer: the number of the
/// stage, the capture timestamp and the frame ID.
pub proof fn emit_hands_over_what_it_is_given<H, N>(
    handler: PacketTrailerHandler<H>,
    stage: SubscribeTimingStage,
    capture_timestamp_us: u64,
    frame_id: u32,
    native_emit_subscribe_timing: N,
) where N: FnOnce(&H, VideoSubscribeTimingStage, u64, u32)
    requires
        call_ensures(
            PacketTrailerHandler::<H>::emit_subscribe_timing::<N>,
            (&handler, stage, capture_timestamp_us, frame_id, native_emit_subscribe_timing),
            (),
        ),
    ensures
        exists|native: VideoSubscribeTimingStage|
            {
                &&& #[trigger] call_ensures(
                    native_emit_subscribe_timing,
                    (&handler@, native, capture_timestamp_us, frame_id),
                    (),
                )
                &&& stage == SubscribeTimingStage::WebrtcReceive ==> native.repr == 0
                &&& stage == SubscribeTimingStage::DecoderUpload ==> native.repr == 1
                &&& stage == SubscribeTimingStage::DecoderOutput ==> native.repr == 2
            },
{
    assert(call_ensures(
        native_emit_subscribe_timing,
        (
            &handler@,
            (VideoSubscribeTimingStage { repr: crate::timing::subscribe_stage_number(stage) }),
            capture_timestamp_us,
            frame_id,
        ),
        (),
    ));
}

/// What is emitted is observed: where the native layer builds an event from the
/// stage, the capture timestamp and the frame ID that it is handed, and gives it
/// to a callback, the observer is called with the stage, the capture timestamp
/// and, unless it is zero, the frame ID that were emitted.
pub proof fn emitted_stage_is_observed<H, N, O>(
    handler: PacketTrailerHandler<H>,
    stage: SubscribeTimingStage,
    capture_timestamp_us: u64,
    frame_id: u32,
    native_emit_subscribe_timing: N,
    event: VideoSubscribeTimingEvent,
    callback: SubscribeTimingCallback<O>,
) where
    N: FnOnce(&H, VideoSubscribeTimingStage, u64, u32),
    O: FnOnce(SubscribeTimingEvent),

    requires
        call_ensures(
            PacketTrailerHandler::<H>::emit_subscribe_timing::<N>,
            (&handler, stage, capture_timestamp_us, frame_id, native_emit_subscribe_timing),
            (),
        ),
        forall|native: VideoSubscribeTimingStage, capture: u64, id: u32| #[trigger]
            call_ensures(native_emit_subscribe_timing, (&handler@, native, capture, id), ())
                ==> event.stage == native && event.capture_timestamp_us == capture
                && event.frame_id == id,
        call_ensures(SubscribeTimingCallback::<O>::on_subscribe_timing, (callback, event), ()),
    ensures
        exists|reported: SubscribeTimingEvent|
            {
                &&& #[trigger] call_ensures(callback.observer, (reported,), ())
                &&& reported.stage == stage
                &&& reported.timestamp_us == event.timestamp_us
                &&& reported.capture_timestamp_us == capture_timestamp_us
                &&& frame_id == 0 ==> reported.frame_id is None
                &&& frame_id != 0 ==> reported.frame_id == Some(frame_id)
            },
{
    emit_hands_over_what_it_is_given(
        handler,
        stage,
        capture_timestamp_us,
        frame_id,
        native_emit_subscribe_timing,
    );
    subscribe_observer_sees_every_field(callback, event);
}

/// A flag that `set_enabled` was given comes back from `enabled`, where the
/// native layer, asked through either handler, answers with what it was handed.
pub proof fn flag_comes_back<H, W, N>(
    handler: PacketTrailerHandler<H>,
    enabled: bool,
    native_set_enabled: W,
    asked: PacketTrailerHandler<H>,
    native_enabled: N,
    answer: bool,
) where W: FnOnce(&H, bool), N: FnOnce(&H) -> bool
    requires
        call_ensures(
            PacketTrailerHandler::<H>::set_enabled::<W>,
            (&handler, enabled, native_set_enabled),
            (),
        ),
        forall|handed: bool, flag: bool| #[trigger]
            call_ensures(native_set_enabled, (&handler@, handed), ()) && #[trigger] call_ensures(
                native_enabled,
                (&asked@,),
                flag,
            ) ==> flag == handed,
        call_ensures(PacketTrailerHandler::<H>::enabled::<N>, (&asked, native_enabled), answer),
    ensures
        answer == enabled,
{
}

/// `set_enabled` hands the flag to the native handler that is held, and `enabled`
/// returns the answer of the native handler that is held.
pub proof fn flag_operations_use_the_handle<H, W, N>(
    handler: PacketTrailerHandler<H>,
    enabled: bool,
    native_set_enabled: W,
    native_enabled: N,
    answer: bool,
) where W: FnOnce(&H, bool), N: FnOnce(&H) -> bool
    ensures
        call_ensures(
            PacketTrailerHandler::<H>::set_enabled::<W>,
            (&handler, enabled, native_set_enabled),
            (),
        ) ==> call_ensures(native_set_enabled, (&handler@, enabled), ()),
        call_ensures(PacketTrailerHandler::<H>::enabled::<N>, (&handler, native_enabled), answer)
            ==> call_ensures(native_enabled, (&handler@,), answer),
{
}

/// A lookup returns the answers of the native layer as they are, and nothing
/// exactly where the native lookup answers `u64::MAX`.
pub proof fn lookup_returns_the_native_answers<H, L, F, D>(
    handler: PacketTrailerHandler<H>,
    rtp_timestamp: u32,
    lookup_timestamp: L,
    last_lookup_frame_id: F,
    last_lookup_user_data: D,
    metadata: Option<(u64, u32, Vec<u8>)>,
    answer: u64,
    frame_id: u32,
    user_data: Seq<u8>,
) where L: FnOnce(&H, u32) -> u64, F: FnOnce(&H) -> u32, D: FnOnce(&H) -> Vec<u8>
    requires
        call_ensures(
            PacketTrailerHandler::<H>::lookup_frame_metadata::<L, F, D>,
            (&handler, rtp_timestamp, lookup_timestamp, last_lookup_frame_id, last_lookup_user_data),
            metadata,
        ),
        forall|a: u64| #[trigger]
            call_ensures(lookup_timestamp, (&handler@, rtp_timestamp), a) ==> a == answer,
        forall|f: u32| #[trigger]
            call_ensures(last_lookup_frame_id, (&handler@,), f) ==> f == frame_id,
        forall|d: Vec<u8>| #[trigger]
            call_ensures(last_lookup_user_data, (&handler@,), d) ==> d@ == user_data,
    ensures
        answer == u64::MAX <==> metadata is None,
        metadata matches Some(found) ==> found.0 == answer && found.1 == frame_id && found.2@
            == user_data,
{
}

/// `store_frame_metadata` hands every value that it is given to the native handler
/// that is held, as it is.
pub proof fn store_hands_over_what_it_is_given<H, W>(
    handler: PacketTrailerHandler<H>,
    capture_timestamp_us: i64,
    user_timestamp: u64,
    frame_id: u32,
    user_data: &[u8],
    native_store_frame_metadata: W,
) where W: FnOnce(&H, i64, u64, u32, &[u8])
    requires
        call_ensures(
            PacketTrailerHandler::<H>::store_frame_metadata::<W>,
            (
                &handler,
                capture_timestamp_us,
                user_timestamp,
                frame_id,
                user_data,
                native_store_frame_metadata,
            ),
            (),
        ),
    ensures
        call_ensures(
            native_store_frame_metadata,
            (&handler@, capture_timestamp_us, user_timestamp, frame_id, user_data),
            (),
        ),
{
}

/// What is stored is looked up: where the pipeline makes the native layer of the
/// receiver answer with what the native store was handed for the capture
/// timestamp, a lookup returns the user timestamp, the frame ID and the user data
/// that were stored. A user timestamp of `u64::MAX` is left out, since it reads as
/// a missing entry.
pub proof fn stored_metadata_is_looked_up<G, W, H, L, F, D>(
    sender: PacketTrailerHandler<G>,
    capture_timestamp_us: i64,
    user_timestamp: u64,
    frame_id: u32,
    user_data: &[u8],
    native_store_frame_metadata: W,
    receiver: PacketTrailerHandler<H>,
    rtp_timestamp: u32,
    lookup_timestamp: L,
    last_lookup_frame_id: F,
    last_lookup_user_data: D,
    metadata: Option<(u64, u32, Vec<u8>)>,
) where
    W: FnOnce(&G, i64, u64, u32, &[u8]),
    L: FnOnce(&H, u32) -> u64,
    F: FnOnce(&H) -> u32,
    D: FnOnce(&H) -> Vec<u8>,

    requires
        user_timestamp != u64::MAX,
        call_ensures(
            PacketTrailerHandler::<G>::store_frame_metadata::<W>,
            (
                &sender,
                capture_timestamp_us,
                user_timestamp,
                frame_id,
                user_data,
                native_store_frame_metadata,
            ),
            (),
        ),
        forall|user: u64, id: u32, data: &[u8]| #[trigger]
            call_ensures(
                native_store_frame_metadata,
                (&sender@, capture_timestamp_us, user, id, data),
                (),
            ) ==> {
                &&& forall|a: u64| #[trigger]
                    call_ensures(lookup_timestamp, (&receiver@, rtp_timestamp), a) ==> a == user
                &&& forall|f: u32| #[trigger]
                    call_ensures(last_lookup_frame_id, (&receiver@,), f) ==> f == id
                &&& forall|d: Vec<u8>| #[trigger]
                    call_ensures(last_lookup_user_data, (&receiver@,), d) ==> d@ == data@
            },
        call_ensures(
            PacketTrailerHandler::<H>::lookup_frame_metadata::<L, F, D>,
            (
                &receiver,
                rtp_timestamp,
                lookup_timestamp,
                last_lookup_frame_id,
                last_lookup_user_data,
            ),
            metadata,
        ),
    ensures
        metadata matches Some(found) && found.0 == user_timestamp && found.1 == frame_id
            && found.2@ == user_data@,
{
    assert(call_ensures(
        native_store_frame_metadata,
        (&sender@, capture_timestamp_us, user_timestamp, frame_id, user_data),
        (),
    ));
}

/// The handle of a clone, and the one that `sys_handle` gives, are clones of the
/// handle that is held.
pub proof fn handles_are_clones_of_the_held_one<H: Clone>(
    handler: PacketTrailerHandler<H>,
    copy: PacketTrailerHandler<H>,
    handle: H,
)
    ensures
        call_ensures(<PacketTrailerHandler<H> as Clone>::clone, (&handler,), copy) ==> cloned(
            handler@,
            copy@,
        ),
        call_ensures(PacketTrailerHandler::<H>::sys_handle, (&handler,), handle) ==> cloned(
            handler@,
            handle,
        ),
{
}

/// Only the media type with number 1 is video, and only a video sender is let
/// through.
pub proof fn only_video_senders_are_let_through(
    media_type: MediaType,
    video: bool,
    result: Result<(), PacketTrailerSenderError>,
)
    requires
        call_ensures(MediaType::is_video, (&media_type,), video),
        call_ensures(crate::create::require_video_sender, (media_type,), result),
    ensures
        video <==> media_type.repr == 1,
        result is Ok <==> media_type.repr == 1,
        result matches Err(error) ==> error == PacketTrailerSenderError::NonVideoSender,
{
}

/// A native handle is accepted as it is unless it is null.
pub proof fn only_null_handles_are_rejected<H>(
    native: H,
    is_null: bool,
    result: Result<PacketTrailerHandler<H>, PacketTrailerSenderError>,
)
    requires
        call_ensures(crate::create::accept_native_sender::<H>, (native, is_null), result),
    ensures
        result is Err <==> is_null,
        result matches Ok(handler) ==> handler@ == native,
        result matches Err(error) ==> error == PacketTrailerSenderError::NativeRejected,
{
}

/// The creation of a sender handler is decided by two native answers: the media
/// type of the sender, which must have number 1, and whether the native handle is
/// null. A handler holds the native handle that was created from the factory and
/// the sender.
pub proof fn sender_creation_follows_the_native_answers<P, S, H, M, C, N>(
    peer_factory: P,
    sender: S,
    native_media_type: M,
    native_create: C,
    is_null: N,
    result: Result<PacketTrailerHandler<H>, PacketTrailerSenderError>,
    media_type: MediaType,
    native: H,
    null: bool,
) where
    M: FnOnce(&S) -> MediaType,
    C: FnOnce(&P, &S) -> H,
    N: FnOnce(&H) -> bool,

    requires
        call_ensures(
            crate::create::try_create_sender_handler::<P, S, H, M, C, N>,
            (&peer_factory, &sender, native_media_type, native_create, is_null),
            result,
        ),
        forall|m: MediaType| #[trigger]
            call_ensures(native_media_type, (&sender,), m) ==> m == media_type,
        forall|h: H| #[trigger]
            call_ensures(native_create, (&peer_factory, &sender), h) ==> h == native,
        forall|n: bool| #[trigger] call_ensures(is_null, (&native,), n) ==> n == null,
    ensures
        media_type.repr != 1 <==> (result matches Err(error) && error
            == PacketTrailerSenderError::NonVideoSender),
        media_type.repr == 1 && null <==> (result matches Err(error) && error
            == PacketTrailerSenderError::NativeRejected),
        media_type.repr == 1 && !null <==> result is Ok,
        result matches Ok(handler) ==> handler@ == native,
{
}

/// The sender handler that `create_sender_handler` returns holds the native
/// handle that was created from the factory and the sender, and that is not null;
/// the receiver handler that `create_receiver_handler` returns holds the native
/// handle that was created from the factory and the receiver.
pub proof fn created_handlers_hold_the_native_handle<P, S, R, H, M, C, N, E>(
    peer_factory: P,
    sender: S,
    receiver: R,
    native_media_type: M,
    native_create: C,
    is_null: N,
    native_create_receiver: E,
    handler: PacketTrailerHandler<H>,
) where
    M: FnOnce(&S) -> MediaType,
    C: FnOnce(&P, &S) -> H,
    N: FnOnce(&H) -> bool,
    E: FnOnce(&P, &R) -> H,

    ensures
        call_ensures(
            crate::create::create_sender_handler::<P, S, H, M, C, N>,
            (&peer_factory, &sender, native_media_type, native_create, is_null),
            handler,
        ) ==> call_ensures(native_create, (&peer_factory, &sender), handler@) && call_ensures(
            is_null,
            (&handler@,),
            false,
        ),
        call_ensures(
            crate::create::create_receiver_handler::<P, R, H, E>,
            (&peer_factory, &receiver, native_create_receiver),
            handler,
        ) ==> call_ensures(native_create_receiver, (&peer_factory, &receiver), handler@),
{
}

/// Each error has its own message, and the message of a failed creation is the
/// message of its error behind the name of the operation.
pub proof fn messages_of_the_errors(
    error: PacketTrailerSenderError,
    message: String,
    failure: String,
)
    requires
        call_ensures(PacketTrailerSenderError::message, (&error,), message),
        call_ensures(PacketTrailerSenderError::creation_failure, (&error,), failure),
    ensures
        error == PacketTrailerSenderError::NonVideoSender ==> message@
            == "packet trailer sender must be a video RTP sender"@,
        error == PacketTrailerSenderError::NativeRejected ==> message@
            == "native packet trailer sender creation failed"@,
        failure@ == "create_sender_handler failed: "@ + message@,
{
}

/// A lookup that finds nothing asks only the native lookup: it may be made with
/// operations for the frame ID and the user data that must not be called.
pub proof fn failed_lookup_reads_nothing_more<H, L, F, D>(
    handler: PacketTrailerHandler<H>,
    rtp_timestamp: u32,
    lookup_timestamp: L,
    last_lookup_frame_id: F,
    last_lookup_user_data: D,
) where L: FnOnce(&H, u32) -> u64, F: FnOnce(&H) -> u32, D: FnOnce(&H) -> Vec<u8>
    requires
        call_requires(lookup_timestamp, (&handler@, rtp_timestamp)),
        forall|a: u64| #[trigger]
            call_ensures(lookup_timestamp, (&handler@, rtp_timestamp), a) ==> a == u64::MAX,
    ensures
        call_requires(
            PacketTrailerHandler::<H>::lookup_frame_metadata::<L, F, D>,
            (&handler, rtp_timestamp, lookup_timestamp, last_lookup_frame_id, last_lookup_user_data),
        ),
{
}

/// A sender that does not send video is rejected before anything is installed:
/// its creation may be asked for with native operations that must not be called.
pub proof fn rejected_sender_creates_nothing<P, S, H, M, C, N>(
    peer_factory: P,
    sender: S,
    native_media_type: M,
    native_create: C,
    is_null: N,
) where
    M: FnOnce(&S) -> MediaType,
    C: FnOnce(&P, &S) -> H,
    N: FnOnce(&H) -> bool,

    requires
        call_requires(native_media_type, (&sender,)),
        forall|m: MediaType| #[trigger]
            call_ensures(native_media_type, (&sender,), m) ==> m.repr != 1,
    ensures
        call_requires(
            crate::create::try_create_sender_handler::<P, S, H, M, C, N>,
            (&peer_factory, &sender, native_media_type, native_create, is_null),
        ),
{
}

/// `set_publish_timing_observer` does one native operation only: with an observer the
/// one that clears, and without one the one that sets, may be one that must not
/// be called.
pub proof fn publish_observer_takes_one_operation<H, O, S, C>(
    handler: PacketTrailerHandler<H>,
    observer: Option<O>,
    native_set_observer: S,
    native_clear_observer: C,
) where S: FnOnce(&H, PublishTimingCallback<O>), C: FnOnce(&H)
    requires
        observer matches Some(o) ==> forall|callback: PublishTimingCallback<O>|
            callback.observer == o ==> #[trigger] call_requires(
                native_set_observer,
                (&handler@, callback),
            ),
        observer is None ==> call_requires(native_clear_observer, (&handler@,)),
    ensures
        call_requires(
            PacketTrailerHandler::<H>::set_publish_timing_observer::<O, S, C>,
            (&handler, observer, native_set_observer, native_clear_observer),
        ),
{
}

/// `set_publish_timing_observer_v2` does one native operation only: with an observer the
/// one that clears, and without one the one that sets, may be one that must not
/// be called.
pub proof fn publish_v2_observer_takes_one_operation<H, O, S, C>(
    handler: PacketTrailerHandler<H>,
    observer: Option<O>,
    native_set_observer: S,
    native_clear_observer: C,
) where S: FnOnce(&H, PublishTimingCallbackV2<O>), C: FnOnce(&H)
    requires
        observer matches Some(o) ==> forall|callback: PublishTimingCallbackV2<O>|
            callback.observer == o ==> #[trigger] call_requires(
                native_set_observer,
                (&handler@, callback),
            ),
        observer is None ==> call_requires(native_clear_observer, (&handler@,)),
    ensures
        call_requires(
            PacketTrailerHandler::<H>::set_publish_timing_observer_v2::<O, S, C>,
            (&handler, observer, native_set_observer, native_clear_observer),
        ),
{
}

/// `set_subscribe_timing_observer` does one native operation only: with an observer the
/// one that clears, and without one the one that sets, may be one that must not
/// be called.
pub proof fn subscribe_observer_takes_one_operation<H, O, S, C>(
    handler: PacketTrailerHandler<H>,
    observer: Option<O>,
    native_set_observer: S,
    native_clear_observer: C,
) where S: FnOnce(&H, SubscribeTimingCallback<O>), C: FnOnce(&H)
    requires
        observer matches Some(o) ==> forall|callback: SubscribeTimingCallback<O>|
            callback.observer == o ==> #[trigger] call_requires(
                native_set_observer,
                (&handler@, callback),
            ),
        observer is None ==> call_requires(native_clear_observer, (&handler@,)),
    ensures
        call_requires(
            PacketTrailerHandler::<H>::set_subscribe_timing_observer::<O, S, C>,
            (&handler, observer, native_set_observer, native_clear_observer),
        ),
{
}

} // verus!
