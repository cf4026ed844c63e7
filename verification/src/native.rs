//! Values exchanged with the native layer, as plain data.
//!
//! A native enumeration crosses the boundary as its number, so a value may hold
//! a number that names none of the known variants.
use vstd::prelude::*;

verus! {

/// Kind of media carried by a native RTP sender.
#[derive(Debug, Clone, Copy, PartialEq, Eq, Structural)]
pub struct MediaType {
    /// Number of the native variant.
    pub repr: i32,
}

impl MediaType {
    /// Number of audio media.
    pub const AUDIO: i32 = 0;

    /// Number of video media.
    pub const VIDEO: i32 = 1;

    /// Number of data channel media.
    pub const DATA: i32 = 2;

    /// Number of media that the native layer does not support.
    pub const UNSUPPORTED: i32 = 3;

    /// Whether the value is the native variant for video.
    pub fn is_video(&self) -> (video: bool)
        ensures
            video == (self.repr == MediaType::VIDEO),
    {
        self.repr == MediaType::VIDEO
    }
}

/// Stage of the native publish pipeline.
#[derive(Debug, Clone, Copy, PartialEq, Eq, Structural)]
pub struct VideoPublishTimingStage {
    /// Number of the native variant.
    pub repr: i32,
}

impl VideoPublishTimingStage {
    /// Number of the stage that hands a raw frame to the encoder.
    pub const ENCODER_UPLOAD: i32 = 0;

    /// Number of the stage that produces an encoded frame.
    pub const ENCODER_OUTPUT: i32 = 1;

    /// Number of the stage that hands an encoded frame to the packetizer.
    pub const WEBRTC_PACKETIZE: i32 = 2;
}

/// Stage of the native subscribe pipeline.
#[derive(Debug, Clone, Copy, PartialEq, Eq, Structural)]
pub struct VideoSubscribeTimingStage {
    /// Number of the native variant.
    pub repr: i32,
}

impl VideoSubscribeTimingStage {
    /// Number of the stage that produces an encoded frame from RTP packets.
    pub const WEBRTC_RECEIVE: i32 = 0;

    /// Number of the stage that hands an encoded frame to the decoder.
    pub const DECODER_UPLOAD: i32 = 1;

    /// Number of the stage that produces a decoded frame.
    pub const DECODER_OUTPUT: i32 = 2;
}

/// Publish timing event as the native layer reports it.
#[derive(Debug, Clone, Copy, PartialEq, Eq, Structural)]
pub struct VideoPublishTimingEvent {
    /// Publish pipeline stage.
    pub stage: VideoPublishTimingStage,
    /// Time of the observation, in microseconds since the Unix epoch.
    pub timestamp_us: u64,
    /// User capture timestamp, in microseconds since the Unix epoch.
    pub capture_timestamp_us: u64,
    /// Application frame ID; zero where the frame has none.
    pub frame_id: u32,
}

/// Publish timing event with RTP identity as the native layer reports it.
#[derive(Debug, Clone, Copy, PartialEq, Eq, Structural)]
pub struct VideoPublishTimingEventV2 {
    /// Publish pipeline stage.
    pub stage: VideoPublishTimingStage,
    /// Time of the observation, in microseconds since the Unix epoch.
    pub timestamp_us: u64,
    /// User capture timestamp, in microseconds since the Unix epoch.
    pub capture_timestamp_us: u64,
    /// Application frame ID; zero where the frame has none.
    pub frame_id: u32,
    /// Whether `rtp_timestamp` and `ssrc` hold values.
    pub has_rtp_timestamp: bool,
    /// Final RTP timestamp.
    pub rtp_timestamp: u32,
    /// SSRC that owns the RTP timestamp.
    pub ssrc: u32,
    /// Whether `is_keyframe` holds a value.
    pub has_keyframe: bool,
    /// Whether the encoded frame is a keyframe.
    pub is_keyframe: bool,
}

/// Subscribe timing event as the native layer reports it.
#[derive(Debug, Clone, Copy, PartialEq, Eq, Structural)]
pub struct VideoSubscribeTimingEvent {
    /// Subscribe pipeline stage.
    pub stage: VideoSubscribeTimingStage,
    /// Time of the observation, in microseconds since the Unix epoch.
    pub timestamp_us: u64,
    /// User capture timestamp, in microseconds since the Unix epoch.
    pub capture_timestamp_us: u64,
    /// Application frame ID; zero where the frame has none.
    pub frame_id: u32,
}

} // verus!
