//! Publish and subscribe timing events.
//!
//! The native layer reports each event with every field filled in and marks
//! what is absent by a zero or a flag. The events here say the same with
//! `Option`.
use vstd::prelude::*;
use crate::native::VideoPublishTimingEvent;
use crate::native::VideoPublishTimingEventV2;
use crate::native::VideoPublishTimingStage;
use crate::native::VideoSubscribeTimingEvent;
use crate::native::VideoSubscribeTimingStage;

verus! {

/// Stage reached by a native local video frame in the publish pipeline.
#[derive(Debug, Clone, Copy, PartialEq, Eq, Structural)]
pub enum PublishTimingStage {
    /// The adapted raw frame was handed to WebRTC's encoder path.
    EncoderUpload,
    /// WebRTC produced an encoded frame for packetization.
    EncoderOutput,
    /// The encoded frame was handed back to WebRTC's packetizer.
    WebrtcPacketize,
}

/// Stage reached by a native remote video frame in the subscribe pipeline.
#[derive(Debug, Clone, Copy, PartialEq, Eq, Structural)]
pub enum SubscribeTimingStage {
    /// WebRTC produced an encoded frame after RTP depacketization.
    WebrtcReceive,
    /// The encoded frame was handed to WebRTC's decoder.
    DecoderUpload,
    /// WebRTC produced a decoded frame for the native video sink.
    DecoderOutput,
}

/// Timestamped native local video publish pipeline event.
#[derive(Debug, Clone, Copy, PartialEq, Eq, Structural)]
pub struct PublishTimingEvent {
    /// Publish pipeline stage reached by the frame.
    pub stage: PublishTimingStage,
    /// Wall-clock time when this stage was observed, in microseconds since the Unix epoch.
    pub timestamp_us: u64,
    /// User capture timestamp associated with this frame, in microseconds since the Unix epoch.
    pub capture_timestamp_us: u64,
    /// Optional application frame ID associated with this frame.
    pub frame_id: Option<u32>,
}

/// Timestamped native local video publish event with final RTP identity.
#[derive(Debug, Clone, Copy, PartialEq, Eq, Structural)]
pub struct PublishTimingEventV2 {
    /// Publish pipeline stage reached by the frame.
    pub stage: PublishTimingStage,
    /// Wall-clock time when this stage was observed, in microseconds since the Unix epoch.
    pub timestamp_us: u64,
    /// User capture timestamp associated with this frame, in microseconds since the Unix epoch.
    pub capture_timestamp_us: u64,
    /// Optional application frame ID associated with this frame.
    pub frame_id: Option<u32>,
    /// Final RTP timestamp assigned by the sender, once packetization starts.
    ///
    /// This is `None` for stages before an RTP timestamp exists.
    pub rtp_timestamp: Option<u32>,
    /// SSRC that owns [`Self::rtp_timestamp`].
    pub ssrc: Option<u32>,
    /// Whether the encoded frame is a keyframe, once encoding completes.
    pub is_keyframe: Option<bool>,
}

/// Timestamped native remote video subscribe pipeline event.
#[derive(Debug, Clone, Copy, PartialEq, Eq, Structural)]
pub struct SubscribeTimingEvent {
    /// Subscribe pipeline stage reached by the frame.
    pub stage: SubscribeTimingStage,
    /// Wall-clock time when this stage was observed, in microseconds since the Unix epoch.
    pub timestamp_us: u64,
    /// User capture timestamp associated with this frame, in microseconds since the Unix epoch.
    pub capture_timestamp_us: u64,
    /// Optional application frame ID associated with this frame.
    pub frame_id: Option<u32>,
}

/// The value where it is present, and nothing where it is not.
pub open spec fn given<T>(present: bool, value: T) -> Option<T> {
    if present {
        Some(value)
    } else {
        None
    }
}

/// Publish stage that a native number names. A number that names none counts as
/// the last stage of the pipeline.
pub open spec fn publish_stage(stage: VideoPublishTimingStage) -> PublishTimingStage {
    if stage.repr == VideoPublishTimingStage::ENCODER_UPLOAD {
        PublishTimingStage::EncoderUpload
    } else if stage.repr == VideoPublishTimingStage::ENCODER_OUTPUT {
        PublishTimingStage::EncoderOutput
    } else {
        PublishTimingStage::WebrtcPacketize
    }
}

/// Subscribe stage that a native number names. A number that names none counts
/// as the last stage of the pipeline.
pub open spec fn subscribe_stage(stage: VideoSubscribeTimingStage) -> SubscribeTimingStage {
    if stage.repr == VideoSubscribeTimingStage::WEBRTC_RECEIVE {
        SubscribeTimingStage::WebrtcReceive
    } else if stage.repr == VideoSubscribeTimingStage::DECODER_UPLOAD {
        SubscribeTimingStage::DecoderUpload
    } else {
        SubscribeTimingStage::DecoderOutput
    }
}

/// Publish timing event that a native event stands for.
pub open spec fn publish_event(event: VideoPublishTimingEvent) -> PublishTimingEvent {
    PublishTimingEvent {
        stage: publish_stage(event.stage),
        timestamp_us: event.timestamp_us,
        capture_timestamp_us: event.capture_timestamp_us,
        frame_id: given(event.frame_id != 0, event.frame_id),
    }
}

/// Publish timing event with RTP identity that a native event stands for.
pub open spec fn publish_event_v2(event: VideoPublishTimingEventV2) -> PublishTimingEventV2 {
    PublishTimingEventV2 {
        stage: publish_stage(event.stage),
        timestamp_us: event.timestamp_us,
        capture_timestamp_us: event.capture_timestamp_us,
        frame_id: given(event.frame_id != 0, event.frame_id),
        rtp_timestamp: given(event.has_rtp_timestamp, event.rtp_timestamp),
        ssrc: given(event.has_rtp_timestamp, event.ssrc),
        is_keyframe: given(event.has_keyframe, event.is_keyframe),
    }
}

/// Subscribe timing event that a native event stands for.
pub open spec fn subscribe_event(event: VideoSubscribeTimingEvent) -> SubscribeTimingEvent {
    SubscribeTimingEvent {
        stage: subscribe_stage(event.stage),
        timestamp_us: event.timestamp_us,
        capture_timestamp_us: event.capture_timestamp_us,
        frame_id: given(event.frame_id != 0, event.frame_id),
    }
}

/// Native number that names a subscribe stage.
pub open spec fn subscribe_stage_number(stage: SubscribeTimingStage) -> i32 {
    match stage {
        SubscribeTimingStage::WebrtcReceive => VideoSubscribeTimingStage::WEBRTC_RECEIVE,
        SubscribeTimingStage::DecoderUpload => VideoSubscribeTimingStage::DECODER_UPLOAD,
        SubscribeTimingStage::DecoderOutput => VideoSubscribeTimingStage::DECODER_OUTPUT,
    }
}

/// Returns the value where it is present.
fn when_present<T>(present: bool, value: T) -> (option: Option<T>)
    ensures
        option == given(present, value),
{
    if present {
        Some(value)
    } else {
        None
    }
}

impl vstd::std_specs::convert::FromSpecImpl<VideoPublishTimingStage> for PublishTimingStage {
    open spec fn obeys_from_spec() -> bool {
        true
    }

    open spec fn from_spec(stage: VideoPublishTimingStage) -> PublishTimingStage {
        publish_stage(stage)
    }
}

impl From<VideoPublishTimingStage> for PublishTimingStage {
    fn from(stage: VideoPublishTimingStage) -> (reached: PublishTimingStage)
        ensures
            reached == publish_stage(stage),
    {
        if stage.repr == VideoPublishTimingStage::ENCODER_UPLOAD {
            PublishTimingStage::EncoderUpload
        } else if stage.repr == VideoPublishTimingStage::ENCODER_OUTPUT {
            PublishTimingStage::EncoderOutput
        } else {
            PublishTimingStage::WebrtcPacketize
        }
    }
}

impl vstd::std_specs::convert::FromSpecImpl<VideoPublishTimingEvent> for PublishTimingEvent {
    open spec fn obeys_from_spec() -> bool {
        true
    }

    open spec fn from_spec(event: VideoPublishTimingEvent) -> PublishTimingEvent {
        publish_event(event)
    }
}

impl From<VideoPublishTimingEvent> for PublishTimingEvent {
    fn from(event: VideoPublishTimingEvent) -> (reported: PublishTimingEvent)
        ensures
            reported == publish_event(event),
    {
        PublishTimingEvent {
            stage: PublishTimingStage::from(event.stage),
            timestamp_us: event.timestamp_us,
            capture_timestamp_us: event.capture_timestamp_us,
            frame_id: when_present(event.frame_id != 0, event.frame_id),
        }
    }
}

impl vstd::std_specs::convert::FromSpecImpl<VideoPublishTimingEventV2> for PublishTimingEventV2 {
    open spec fn obeys_from_spec() -> bool {
        true
    }

    open spec fn from_spec(event: VideoPublishTimingEventV2) -> PublishTimingEventV2 {
        publish_event_v2(event)
    }
}

impl From<VideoPublishTimingEventV2> for PublishTimingEventV2 {
    fn from(event: VideoPublishTimingEventV2) -> (reported: PublishTimingEventV2)
        ensures
            reported == publish_event_v2(event),
    {
        PublishTimingEventV2 {
            stage: PublishTimingStage::from(event.stage),
            timestamp_us: event.timestamp_us,
            capture_timestamp_us: event.capture_timestamp_us,
            frame_id: when_present(event.frame_id != 0, event.frame_id),
            rtp_timestamp: when_present(event.has_rtp_timestamp, event.rtp_timestamp),
            ssrc: when_present(event.has_rtp_timestamp, event.ssrc),
            is_keyframe: when_present(event.has_keyframe, event.is_keyframe),
        }
    }
}

impl vstd::std_specs::convert::FromSpecImpl<VideoSubscribeTimingStage> for SubscribeTimingStage {
    open spec fn obeys_from_spec() -> bool {
        true
    }

    open spec fn from_spec(stage: VideoSubscribeTimingStage) -> SubscribeTimingStage {
        subscribe_stage(stage)
    }
}

impl From<VideoSubscribeTimingStage> for SubscribeTimingStage {
    fn from(stage: VideoSubscribeTimingStage) -> (reached: SubscribeTimingStage)
        ensures
            reached == subscribe_stage(stage),
    {
        if stage.repr == VideoSubscribeTimingStage::WEBRTC_RECEIVE {
            SubscribeTimingStage::WebrtcReceive
        } else if stage.repr == VideoSubscribeTimingStage::DECODER_UPLOAD {
            SubscribeTimingStage::DecoderUpload
        } else {
            SubscribeTimingStage::DecoderOutput
        }
    }
}

impl vstd::std_specs::convert::FromSpecImpl<VideoSubscribeTimingEvent> for SubscribeTimingEvent {
    open spec fn obeys_from_spec() -> bool {
        true
    }

    open spec fn from_spec(event: VideoSubscribeTimingEvent) -> SubscribeTimingEvent {
        subscribe_event(event)
    }
}

impl From<VideoSubscribeTimingEvent> for SubscribeTimingEvent {
    fn from(event: VideoSubscribeTimingEvent) -> (reported: SubscribeTimingEvent)
        ensures
            reported == subscribe_event(event),
    {
        SubscribeTimingEvent {
            stage: SubscribeTimingStage::from(event.stage),
            timestamp_us: event.timestamp_us,
            capture_timestamp_us: event.capture_timestamp_us,
            frame_id: when_present(event.frame_id != 0, event.frame_id),
        }
    }
}

impl SubscribeTimingStage {
    /// Native value that names this stage.
    pub fn native_stage(self) -> (native: VideoSubscribeTimingStage)
        ensures
            native.repr == subscribe_stage_number(self),
    {
        match self {
            SubscribeTimingStage::WebrtcReceive => VideoSubscribeTimingStage {
                repr: VideoSubscribeTimingStage::WEBRTC_RECEIVE,
            },
            SubscribeTimingStage::DecoderUpload => VideoSubscribeTimingStage {
                repr: VideoSubscribeTimingStage::DECODER_UPLOAD,
            },
            SubscribeTimingStage::DecoderOutput => VideoSubscribeTimingStage {
                repr: VideoSubscribeTimingStage::DECODER_OUTPUT,
            },
        }
    }
}

/// Whether a native number names a publish stage.
pub open spec fn names_publish_stage(stage: VideoPublishTimingStage) -> bool {
    ||| stage.repr == VideoPublishTimingStage::ENCODER_UPLOAD
    ||| stage.repr == VideoPublishTimingStage::ENCODER_OUTPUT
    ||| stage.repr == VideoPublishTimingStage::WEBRTC_PACKETIZE
}

/// Whether a native number names a subscribe stage.
pub open spec fn names_subscribe_stage(stage: VideoSubscribeTimingStage) -> bool {
    ||| stage.repr == VideoSubscribeTimingStage::WEBRTC_RECEIVE
    ||| stage.repr == VideoSubscribeTimingStage::DECODER_UPLOAD
    ||| stage.repr == VideoSubscribeTimingStage::DECODER_OUTPUT
}

/// A native publish stage outside the known numbers is reported as the last
/// stage of the pipeline.
pub proof fn unknown_publish_stage_is_the_last(stage: VideoPublishTimingStage)
    requires
        !names_publish_stage(stage),
    ensures
        publish_stage(stage) == PublishTimingStage::WebrtcPacketize,
{
}

/// A native subscribe stage outside the known numbers is reported as the last
/// stage of the pipeline.
pub proof fn unknown_subscribe_stage_is_the_last(stage: VideoSubscribeTimingStage)
    requires
        !names_subscribe_stage(stage),
    ensures
        subscribe_stage(stage) == SubscribeTimingStage::DecoderOutput,
{
}

/// A subscribe stage survives the way to the native layer and back, and each
/// known native number comes back as itself.
pub proof fn subscribe_stage_round_trip(
    stage: SubscribeTimingStage,
    native: VideoSubscribeTimingStage,
)
    ensures
        native.repr == subscribe_stage_number(stage) ==> subscribe_stage(native) == stage,
        names_subscribe_stage(native) ==> subscribe_stage_number(subscribe_stage(native))
            == native.repr,
{
}

/// A subscribe event that the native layer builds from an emitted stage, capture
/// timestamp and frame ID is observed with that stage and capture timestamp, and
/// with that frame ID unless it is zero.
pub proof fn emitted_subscribe_event_is_observed(
    stage: SubscribeTimingStage,
    event: VideoSubscribeTimingEvent,
)
    requires
        event.stage.repr == subscribe_stage_number(stage),
    ensures
        subscribe_event(event) == (SubscribeTimingEvent {
            stage,
            timestamp_us: event.timestamp_us,
            capture_timestamp_us: event.capture_timestamp_us,
            frame_id: given(event.frame_id != 0, event.frame_id),
        }),
{
}

/// No event reports a frame ID of zero.
pub proof fn reported_frame_id_is_not_zero(
    publish: VideoPublishTimingEvent,
    publish_v2: VideoPublishTimingEventV2,
    subscribe: VideoSubscribeTimingEvent,
)
    ensures
        publish_event(publish).frame_id != Some(0u32),
        publish_event_v2(publish_v2).frame_id != Some(0u32),
        subscribe_event(subscribe).frame_id != Some(0u32),
{
}

/// An RTP timestamp is reported exactly where the SSRC that owns it is.
pub proof fn rtp_timestamp_comes_with_its_ssrc(event: VideoPublishTimingEventV2)
    ensures
        publish_event_v2(event).rtp_timestamp is Some <==> publish_event_v2(event).ssrc is Some,
{
}

/// What is reported of the RTP identity and of the keyframe depends on the flags
/// alone: every value that a flag marks is reported as it is, zero and `false`
/// among them, and no value that is not marked is reported.
pub proof fn flags_decide_what_is_reported(event: VideoPublishTimingEventV2)
    ensures
        event.has_rtp_timestamp ==> publish_event_v2(event).rtp_timestamp == Some(
            event.rtp_timestamp,
        ) && publish_event_v2(event).ssrc == Some(event.ssrc),
        !event.has_rtp_timestamp ==> publish_event_v2(event).rtp_timestamp is None
            && publish_event_v2(event).ssrc is None,
        event.has_keyframe ==> publish_event_v2(event).is_keyframe == Some(event.is_keyframe),
        !event.has_keyframe ==> publish_event_v2(event).is_keyframe is None,
{
}

/// For one native observation, the event with RTP identity reports what the
/// event without it reports.
pub proof fn v2_event_extends_the_legacy_event(
    legacy: VideoPublishTimingEvent,
    event: VideoPublishTimingEventV2,
)
    requires
        legacy.stage == event.stage,
        legacy.timestamp_us == event.timestamp_us,
        legacy.capture_timestamp_us == event.capture_timestamp_us,
        legacy.frame_id == event.frame_id,
    ensures
        publish_event_v2(event).stage == publish_event(legacy).stage,
        publish_event_v2(event).timestamp_us == publish_event(legacy).timestamp_us,
        publish_event_v2(event).capture_timestamp_us == publish_event(legacy).capture_timestamp_us,
        publish_event_v2(event).frame_id == publish_event(legacy).frame_id,
{
}

/// Native publish events with known stages that are reported alike are equal.
pub proof fn publish_event_loses_nothing(
    left: VideoPublishTimingEvent,
    right: VideoPublishTimingEvent,
)
    requires
        names_publish_stage(left.stage),
        names_publish_stage(right.stage),
        publish_event(left) == publish_event(right),
    ensures
        left == right,
{
}

/// Native publish events with RTP identity and known stages that are reported
/// alike agree on the flags and on every value that a flag marks.
pub proof fn publish_event_v2_loses_nothing(
    left: VideoPublishTimingEventV2,
    right: VideoPublishTimingEventV2,
)
    requires
        names_publish_stage(left.stage),
        names_publish_stage(right.stage),
        publish_event_v2(left) == publish_event_v2(right),
    ensures
        left.stage == right.stage,
        left.timestamp_us == right.timestamp_us,
        left.capture_timestamp_us == right.capture_timestamp_us,
        left.frame_id == right.frame_id,
        left.has_rtp_timestamp == right.has_rtp_timestamp,
        left.has_rtp_timestamp ==> left.rtp_timestamp == right.rtp_timestamp && left.ssrc
            == right.ssrc,
        left.has_keyframe == right.has_keyframe,
        left.has_keyframe ==> left.is_keyframe == right.is_keyframe,
{
}

/// Native subscribe events with known stages that are reported alike are equal.
pub proof fn subscribe_event_loses_nothing(
    left: VideoSubscribeTimingEvent,
    right: VideoSubscribeTimingEvent,
)
    requires
        names_subscribe_stage(left.stage),
        names_subscribe_stage(right.stage),
        subscribe_event(left) == subscribe_event(right),
    ensures
        left == right,
{
}

/// A publish event reports the stage of the same name, both times as they are,
/// and the frame ID itself unless it is zero.
pub proof fn publish_event_keeps_every_field(event: VideoPublishTimingEvent)
    ensures
        publish_event(event).timestamp_us == event.timestamp_us,
        publish_event(event).capture_timestamp_us == event.capture_timestamp_us,
        event.frame_id == 0 ==> publish_event(event).frame_id is None,
        event.frame_id != 0 ==> publish_event(event).frame_id == Some(event.frame_id),
        event.stage.repr == VideoPublishTimingStage::ENCODER_UPLOAD ==> publish_event(event).stage == PublishTimingStage::EncoderUpload,
        event.stage.repr == VideoPublishTimingStage::ENCODER_OUTPUT ==> publish_event(event).stage == PublishTimingStage::EncoderOutput,
        event.stage.repr == VideoPublishTimingStage::WEBRTC_PACKETIZE ==> publish_event(event).stage == PublishTimingStage::WebrtcPacketize,
        event.stage.repr != VideoPublishTimingStage::ENCODER_UPLOAD && event.stage.repr
            != VideoPublishTimingStage::ENCODER_OUTPUT ==> publish_event(event).stage == PublishTimingStage::WebrtcPacketize,
{
}

/// A publish event with RTP identity reports the stage of the same name, both
/// times as they are, the frame ID itself unless it is zero, and the RTP identity
/// and the keyframe as they are where they are marked.
pub proof fn publish_event_v2_keeps_every_field(event: VideoPublishTimingEventV2)
    ensures
        publish_event_v2(event).timestamp_us == event.timestamp_us,
        publish_event_v2(event).capture_timestamp_us == event.capture_timestamp_us,
        event.frame_id == 0 ==> publish_event_v2(event).frame_id is None,
        event.frame_id != 0 ==> publish_event_v2(event).frame_id == Some(event.frame_id),
        event.stage.repr == VideoPublishTimingStage::ENCODER_UPLOAD ==> publish_event_v2(event).stage == PublishTimingStage::EncoderUpload,
        event.stage.repr == VideoPublishTimingStage::ENCODER_OUTPUT ==> publish_event_v2(event).stage == PublishTimingStage::EncoderOutput,
        event.stage.repr == VideoPublishTimingStage::WEBRTC_PACKETIZE ==> publish_event_v2(event).stage == PublishTimingStage::WebrtcPacketize,
        event.stage.repr != VideoPublishTimingStage::ENCODER_UPLOAD && event.stage.repr
            != VideoPublishTimingStage::ENCODER_OUTPUT ==> publish_event_v2(event).stage == PublishTimingStage::WebrtcPacketize,
        event.has_rtp_timestamp ==> publish_event_v2(event).rtp_timestamp == Some(event.rtp_timestamp),
        event.has_rtp_timestamp ==> publish_event_v2(event).ssrc == Some(event.ssrc),
        !event.has_rtp_timestamp ==> publish_event_v2(event).rtp_timestamp is None && publish_event_v2(event).ssrc is None,
        event.has_keyframe ==> publish_event_v2(event).is_keyframe == Some(event.is_keyframe),
        !event.has_keyframe ==> publish_event_v2(event).is_keyframe is None,
{
}

/// A subscribe event reports the stage of the same name, both times as they are,
/// and the frame ID itself unless it is zero.
pub proof fn subscribe_event_keeps_every_field(event: VideoSubscribeTimingEvent)
    ensures
        subscribe_event(event).timestamp_us == event.timestamp_us,
        subscribe_event(event).capture_timestamp_us == event.capture_timestamp_us,
        event.frame_id == 0 ==> subscribe_event(event).frame_id is None,
        event.frame_id != 0 ==> subscribe_event(event).frame_id == Some(event.frame_id),
        event.stage.repr == VideoSubscribeTimingStage::WEBRTC_RECEIVE ==> subscribe_event(event).stage == SubscribeTimingStage::WebrtcReceive,
        event.stage.repr == VideoSubscribeTimingStage::DECODER_UPLOAD ==> subscribe_event(event).stage == SubscribeTimingStage::DecoderUpload,
        event.stage.repr == VideoSubscribeTimingStage::DECODER_OUTPUT ==> subscribe_event(event).stage == SubscribeTimingStage::DecoderOutput,
        event.stage.repr != VideoSubscribeTimingStage::WEBRTC_RECEIVE && event.stage.repr
            != VideoSubscribeTimingStage::DECODER_UPLOAD ==> subscribe_event(event).stage == SubscribeTimingStage::DecoderOutput,
{
}

} // verus!
