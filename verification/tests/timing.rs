use packet_trailer::native::{
    VideoPublishTimingEvent, VideoPublishTimingEventV2, VideoPublishTimingStage,
    VideoSubscribeTimingEvent, VideoSubscribeTimingStage,
};
use packet_trailer::{
    PublishTimingEvent, PublishTimingEventV2, PublishTimingStage, SubscribeTimingEvent,
    SubscribeTimingStage,
};

const ENCODER_UPLOAD: VideoPublishTimingStage =
    VideoPublishTimingStage { repr: VideoPublishTimingStage::ENCODER_UPLOAD };
const ENCODER_OUTPUT: VideoPublishTimingStage =
    VideoPublishTimingStage { repr: VideoPublishTimingStage::ENCODER_OUTPUT };
const WEBRTC_PACKETIZE: VideoPublishTimingStage =
    VideoPublishTimingStage { repr: VideoPublishTimingStage::WEBRTC_PACKETIZE };

#[test]
fn legacy_publish_timing_event_remains_constructible_with_its_original_fields() {
    let event = PublishTimingEvent {
        stage: PublishTimingStage::EncoderUpload,
        timestamp_us: 20,
        capture_timestamp_us: 10,
        frame_id: Some(7),
    };
    let sys_event = VideoPublishTimingEvent {
        stage: ENCODER_UPLOAD,
        timestamp_us: 20,
        capture_timestamp_us: 10,
        frame_id: 7,
    };

    assert_eq!(event.frame_id, Some(sys_event.frame_id));
    assert_eq!(PublishTimingEvent::from(sys_event), event);
}

#[test]
fn publish_timing_preserves_an_exact_zero_rtp_timestamp() {
    let event = PublishTimingEventV2::from(VideoPublishTimingEventV2 {
        stage: WEBRTC_PACKETIZE,
        timestamp_us: 20,
        capture_timestamp_us: 10,
        frame_id: 7,
        has_rtp_timestamp: true,
        rtp_timestamp: 0,
        ssrc: 42,
        has_keyframe: true,
        is_keyframe: true,
    });

    assert_eq!(event.stage, PublishTimingStage::WebrtcPacketize);
    assert_eq!(event.rtp_timestamp, Some(0));
    assert_eq!(event.ssrc, Some(42));
    assert_eq!(event.is_keyframe, Some(true));
}

#[test]
fn publish_timing_keeps_pre_packetization_rtp_identity_absent() {
    let event = PublishTimingEventV2::from(VideoPublishTimingEventV2 {
        stage: ENCODER_UPLOAD,
        timestamp_us: 20,
        capture_timestamp_us: 10,
        frame_id: 7,
        has_rtp_timestamp: false,
        rtp_timestamp: 0,
        ssrc: 0,
        has_keyframe: false,
        is_keyframe: false,
    });

    assert_eq!(event.rtp_timestamp, None);
    assert_eq!(event.ssrc, None);
    assert_eq!(event.is_keyframe, None);
}

#[test]
fn publish_timing_preserves_a_non_keyframe_value() {
    let event = PublishTimingEventV2::from(VideoPublishTimingEventV2 {
        stage: ENCODER_OUTPUT,
        timestamp_us: 20,
        capture_timestamp_us: 10,
        frame_id: 7,
        has_rtp_timestamp: true,
        rtp_timestamp: 1,
        ssrc: 42,
        has_keyframe: true,
        is_keyframe: false,
    });

    assert_eq!(event.is_keyframe, Some(false));
}

#[test]
fn every_publish_stage_number_names_a_stage() {
    assert_eq!(PublishTimingStage::from(ENCODER_UPLOAD), PublishTimingStage::EncoderUpload);
    assert_eq!(PublishTimingStage::from(ENCODER_OUTPUT), PublishTimingStage::EncoderOutput);
    assert_eq!(PublishTimingStage::from(WEBRTC_PACKETIZE), PublishTimingStage::WebrtcPacketize);
    for repr in [-1, 3, 17, i32::MIN, i32::MAX] {
        assert_eq!(
            PublishTimingStage::from(VideoPublishTimingStage { repr }),
            PublishTimingStage::WebrtcPacketize
        );
    }
}

#[test]
fn every_subscribe_stage_number_names_a_stage() {
    let stages = [
        (0, SubscribeTimingStage::WebrtcReceive),
        (1, SubscribeTimingStage::DecoderUpload),
        (2, SubscribeTimingStage::DecoderOutput),
        (-1, SubscribeTimingStage::DecoderOutput),
        (3, SubscribeTimingStage::DecoderOutput),
        (i32::MIN, SubscribeTimingStage::DecoderOutput),
        (i32::MAX, SubscribeTimingStage::DecoderOutput),
    ];
    for (repr, stage) in stages {
        assert_eq!(SubscribeTimingStage::from(VideoSubscribeTimingStage { repr }), stage);
    }
}

#[test]
fn subscribe_stages_survive_the_round_trip() {
    let stages = [
        (SubscribeTimingStage::WebrtcReceive, 0),
        (SubscribeTimingStage::DecoderUpload, 1),
        (SubscribeTimingStage::DecoderOutput, 2),
    ];
    for (stage, repr) in stages {
        assert_eq!(stage.native_stage(), VideoSubscribeTimingStage { repr });
        assert_eq!(SubscribeTimingStage::from(stage.native_stage()), stage);
    }
}

#[test]
fn a_zero_frame_id_is_absent() {
    let publish = VideoPublishTimingEvent {
        stage: ENCODER_OUTPUT,
        timestamp_us: 20,
        capture_timestamp_us: 10,
        frame_id: 0,
    };
    let subscribe = VideoSubscribeTimingEvent {
        stage: VideoSubscribeTimingStage { repr: VideoSubscribeTimingStage::DECODER_UPLOAD },
        timestamp_us: 21,
        capture_timestamp_us: 11,
        frame_id: 0,
    };
    assert_eq!(
        PublishTimingEvent::from(publish),
        PublishTimingEvent {
            stage: PublishTimingStage::EncoderOutput,
            timestamp_us: 20,
            capture_timestamp_us: 10,
            frame_id: None,
        }
    );
    assert_eq!(
        SubscribeTimingEvent::from(subscribe),
        SubscribeTimingEvent {
            stage: SubscribeTimingStage::DecoderUpload,
            timestamp_us: 21,
            capture_timestamp_us: 11,
            frame_id: None,
        }
    );
}

#[test]
fn subscribe_timing_keeps_every_field() {
    let event = SubscribeTimingEvent::from(VideoSubscribeTimingEvent {
        stage: SubscribeTimingStage::WebrtcReceive.native_stage(),
        timestamp_us: u64::MAX,
        capture_timestamp_us: 987_654,
        frame_id: u32::MAX,
    });
    assert_eq!(
        event,
        SubscribeTimingEvent {
            stage: SubscribeTimingStage::WebrtcReceive,
            timestamp_us: u64::MAX,
            capture_timestamp_us: 987_654,
            frame_id: Some(u32::MAX),
        }
    );
}

#[test]
fn unmarked_values_are_not_reported() {
    let event = PublishTimingEventV2::from(VideoPublishTimingEventV2 {
        stage: ENCODER_OUTPUT,
        timestamp_us: 20,
        capture_timestamp_us: 10,
        frame_id: 0,
        has_rtp_timestamp: false,
        rtp_timestamp: 5,
        ssrc: 42,
        has_keyframe: false,
        is_keyframe: true,
    });
    assert_eq!(
        event,
        PublishTimingEventV2 {
            stage: PublishTimingStage::EncoderOutput,
            timestamp_us: 20,
            capture_timestamp_us: 10,
            frame_id: None,
            rtp_timestamp: None,
            ssrc: None,
            is_keyframe: None,
        }
    );
}

#[test]
fn both_publish_events_agree_on_what_they_share() {
    let legacy = PublishTimingEvent::from(VideoPublishTimingEvent {
        stage: WEBRTC_PACKETIZE,
        timestamp_us: 20,
        capture_timestamp_us: 987_654,
        frame_id: 7,
    });
    let event = PublishTimingEventV2::from(VideoPublishTimingEventV2 {
        stage: WEBRTC_PACKETIZE,
        timestamp_us: 20,
        capture_timestamp_us: 987_654,
        frame_id: 7,
        has_rtp_timestamp: true,
        rtp_timestamp: 90_000,
        ssrc: 42,
        has_keyframe: true,
        is_keyframe: true,
    });
    assert_eq!(event.stage, legacy.stage);
    assert_eq!(event.timestamp_us, legacy.timestamp_us);
    assert_eq!(event.capture_timestamp_us, legacy.capture_timestamp_us);
    assert_eq!(event.frame_id, legacy.frame_id);
    assert_eq!(event.rtp_timestamp.is_some(), event.ssrc.is_some());
}
