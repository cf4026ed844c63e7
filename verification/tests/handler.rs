use std::cell::{Cell, RefCell};
use std::collections::BTreeMap;
use std::rc::Rc;

use packet_trailer::create::{accept_native_sender, require_video_sender};
use packet_trailer::native::{
    MediaType, VideoPublishTimingEvent, VideoPublishTimingEventV2, VideoPublishTimingStage,
    VideoSubscribeTimingEvent, VideoSubscribeTimingStage,
};
use packet_trailer::observer::{PublishTimingCallback, PublishTimingCallbackV2};
use packet_trailer::{
    create_receiver_handler, create_sender_handler, try_create_sender_handler,
    PacketTrailerHandler, PacketTrailerSenderError, PublishTimingEvent, PublishTimingEventV2,
    PublishTimingStage, SubscribeTimingEvent, SubscribeTimingStage,
};

/// A native handler that keeps what it was asked.
#[derive(Default)]
struct Native {
    enabled: Cell<bool>,
    received: RefCell<BTreeMap<u32, (u64, u32, Vec<u8>)>>,
    last: RefCell<(u32, Vec<u8>)>,
    stored: RefCell<Vec<(i64, u64, u32, Vec<u8>)>>,
    emitted: RefCell<Vec<(VideoSubscribeTimingStage, u64, u32)>>,
}

impl Native {
    fn lookup_timestamp(&self, rtp_timestamp: u32) -> u64 {
        match self.received.borrow_mut().remove(&rtp_timestamp) {
            Some((user_timestamp, frame_id, user_data)) => {
                *self.last.borrow_mut() = (frame_id, user_data);
                user_timestamp
            }
            None => u64::MAX,
        }
    }
}

type Handler = PacketTrailerHandler<Rc<Native>>;

fn receiver_handler() -> Handler {
    create_receiver_handler(&"factory", &"receiver", |_: &&str, _: &&str| Rc::new(Native::default()))
}

fn lookup(handler: &Handler, rtp_timestamp: u32) -> Option<(u64, u32, Vec<u8>)> {
    handler.lookup_frame_metadata(
        rtp_timestamp,
        |native: &Rc<Native>, rtp_timestamp: u32| native.lookup_timestamp(rtp_timestamp),
        |native: &Rc<Native>| native.last.borrow().0,
        |native: &Rc<Native>| native.last.borrow().1.clone(),
    )
}

#[test]
fn a_lookup_takes_the_entry() {
    let handler = receiver_handler();
    let native = handler.sys_handle();
    native.received.borrow_mut().insert(90_000, (987_654, 7, vec![1, 2, 3]));
    native.received.borrow_mut().insert(93_000, (987_655, 0, vec![]));

    assert_eq!(lookup(&handler, 90_000), Some((987_654, 7, vec![1, 2, 3])));
    assert_eq!(lookup(&handler, 90_000), None);
    assert_eq!(lookup(&handler, 93_000), Some((987_655, 0, vec![])));
    assert!(native.received.borrow().is_empty());
}

#[test]
fn a_lookup_without_an_entry_reads_nothing_more() {
    let handler = receiver_handler();
    let result = handler.lookup_frame_metadata(
        5,
        |_: &Rc<Native>, rtp_timestamp: u32| {
            assert_eq!(rtp_timestamp, 5);
            u64::MAX
        },
        |_: &Rc<Native>| panic!("frame ID of a failed lookup"),
        |_: &Rc<Native>| panic!("user data of a failed lookup"),
    );
    assert_eq!(result, None);
}

#[test]
fn a_zero_user_timestamp_is_found() {
    let handler = receiver_handler();
    handler.sys_handle().received.borrow_mut().insert(0, (0, 0, vec![9]));
    assert_eq!(lookup(&handler, 0), Some((0, 0, vec![9])));
}

#[test]
fn the_largest_user_timestamp_counts_as_missing() {
    let handler = receiver_handler();
    handler.sys_handle().received.borrow_mut().insert(1, (u64::MAX, 7, vec![]));
    assert_eq!(lookup(&handler, 1), None);
}

#[test]
fn enabling_reaches_the_native_handler() {
    let handler = receiver_handler();
    let enabled =
        |handler: &Handler| handler.enabled(|native: &Rc<Native>| native.enabled.get());
    assert!(!enabled(&handler));
    handler.set_enabled(true, |native: &Rc<Native>, on: bool| native.enabled.set(on));
    assert!(enabled(&handler));
    assert!(enabled(&handler.clone()));
    handler.set_enabled(false, |native: &Rc<Native>, on: bool| native.enabled.set(on));
    assert!(!enabled(&handler));
}

#[test]
fn stored_metadata_reaches_the_native_handler() {
    let handler = receiver_handler();
    handler.store_frame_metadata(
        -123_000,
        987_654,
        7,
        &[1, 2, 3],
        |native: &Rc<Native>, capture: i64, user: u64, frame_id: u32, user_data: &[u8]| {
            native.stored.borrow_mut().push((capture, user, frame_id, user_data.to_vec()))
        },
    );
    assert_eq!(
        *handler.sys_handle().stored.borrow(),
        vec![(-123_000, 987_654, 7, vec![1, 2, 3])]
    );
}

#[test]
fn emitted_stages_reach_the_native_handler_and_come_back() {
    let handler = receiver_handler();
    let stages = [
        SubscribeTimingStage::WebrtcReceive,
        SubscribeTimingStage::DecoderUpload,
        SubscribeTimingStage::DecoderOutput,
    ];
    for stage in stages {
        handler.emit_subscribe_timing(
            stage,
            10,
            7,
            |native: &Rc<Native>, stage: VideoSubscribeTimingStage, capture: u64, frame_id: u32| {
                native.emitted.borrow_mut().push((stage, capture, frame_id))
            },
        );
    }
    let native = handler.sys_handle();
    let emitted = native.emitted.borrow();
    assert_eq!(emitted.len(), 3);
    for (number, stage) in stages.into_iter().enumerate() {
        let (native_stage, capture_timestamp_us, frame_id) = emitted[number];
        assert_eq!(native_stage.repr, number as i32);
        assert_eq!(
            SubscribeTimingEvent::from(VideoSubscribeTimingEvent {
                stage: native_stage,
                timestamp_us: 20,
                capture_timestamp_us,
                frame_id,
            }),
            SubscribeTimingEvent {
                stage,
                timestamp_us: 20,
                capture_timestamp_us: 10,
                frame_id: Some(7),
            }
        );
    }
}

#[test]
fn a_publish_observer_receives_converted_events() {
    let handler = receiver_handler();
    let seen = RefCell::new(Vec::new());
    handler.set_publish_timing_observer(
        Some(|event: PublishTimingEvent| seen.borrow_mut().push(event)),
        |_: &Rc<Native>, callback| {
            callback.on_publish_timing(VideoPublishTimingEvent {
                stage: VideoPublishTimingStage { repr: 1 },
                timestamp_us: 20,
                capture_timestamp_us: 10,
                frame_id: 7,
            })
        },
        |_: &Rc<Native>| panic!("an observer is set"),
    );
    assert_eq!(
        seen.into_inner(),
        vec![PublishTimingEvent {
            stage: PublishTimingStage::EncoderOutput,
            timestamp_us: 20,
            capture_timestamp_us: 10,
            frame_id: Some(7),
        }]
    );
}

#[test]
fn a_publish_observer_with_rtp_identity_receives_converted_events() {
    let handler = receiver_handler();
    let seen = RefCell::new(Vec::new());
    handler.set_publish_timing_observer_v2(
        Some(|event: PublishTimingEventV2| seen.borrow_mut().push(event)),
        |_: &Rc<Native>, callback| {
            callback.on_publish_timing_v2(VideoPublishTimingEventV2 {
                stage: VideoPublishTimingStage { repr: 2 },
                timestamp_us: 20,
                capture_timestamp_us: 10,
                frame_id: 0,
                has_rtp_timestamp: true,
                rtp_timestamp: 0,
                ssrc: 42,
                has_keyframe: false,
                is_keyframe: false,
            })
        },
        |_: &Rc<Native>| panic!("an observer is set"),
    );
    assert_eq!(
        seen.into_inner(),
        vec![PublishTimingEventV2 {
            stage: PublishTimingStage::WebrtcPacketize,
            timestamp_us: 20,
            capture_timestamp_us: 10,
            frame_id: None,
            rtp_timestamp: Some(0),
            ssrc: Some(42),
            is_keyframe: None,
        }]
    );
}

#[test]
fn a_subscribe_observer_receives_converted_events() {
    let handler = receiver_handler();
    let seen = RefCell::new(Vec::new());
    handler.set_subscribe_timing_observer(
        Some(|event: SubscribeTimingEvent| seen.borrow_mut().push(event)),
        |_: &Rc<Native>, callback| {
            callback.on_subscribe_timing(VideoSubscribeTimingEvent {
                stage: VideoSubscribeTimingStage { repr: 0 },
                timestamp_us: 20,
                capture_timestamp_us: 10,
                frame_id: 7,
            })
        },
        |_: &Rc<Native>| panic!("an observer is set"),
    );
    assert_eq!(
        seen.into_inner(),
        vec![SubscribeTimingEvent {
            stage: SubscribeTimingStage::WebrtcReceive,
            timestamp_us: 20,
            capture_timestamp_us: 10,
            frame_id: Some(7),
        }]
    );
}

#[test]
fn every_event_makes_one_observer_call() {
    let handler = receiver_handler();
    let seen = RefCell::new(Vec::new());
    handler.set_subscribe_timing_observer(
        Some(|event: SubscribeTimingEvent| seen.borrow_mut().push(event.stage)),
        |_: &Rc<Native>, callback| {
            for repr in [0, 1, 2, 3] {
                callback.for_event().on_subscribe_timing(VideoSubscribeTimingEvent {
                    stage: VideoSubscribeTimingStage { repr },
                    timestamp_us: 20,
                    capture_timestamp_us: 10,
                    frame_id: 7,
                })
            }
        },
        |_: &Rc<Native>| panic!("an observer is set"),
    );
    assert_eq!(
        seen.into_inner(),
        vec![
            SubscribeTimingStage::WebrtcReceive,
            SubscribeTimingStage::DecoderUpload,
            SubscribeTimingStage::DecoderOutput,
            SubscribeTimingStage::DecoderOutput,
        ]
    );

    let publish = Cell::new(0);
    handler.set_publish_timing_observer(
        Some(|_: PublishTimingEvent| publish.set(publish.get() + 1)),
        |_: &Rc<Native>, callback| {
            for repr in [0, 1, 2] {
                callback.for_event().on_publish_timing(VideoPublishTimingEvent {
                    stage: VideoPublishTimingStage { repr },
                    timestamp_us: 20,
                    capture_timestamp_us: 10,
                    frame_id: 7,
                })
            }
        },
        |_: &Rc<Native>| panic!("an observer is set"),
    );
    assert_eq!(publish.get(), 3);

    let publish_v2 = Cell::new(0);
    handler.set_publish_timing_observer_v2(
        Some(|_: PublishTimingEventV2| publish_v2.set(publish_v2.get() + 1)),
        |_: &Rc<Native>, callback| {
            for repr in [0, 1, 2] {
                callback.for_event().on_publish_timing_v2(VideoPublishTimingEventV2 {
                    stage: VideoPublishTimingStage { repr },
                    timestamp_us: 20,
                    capture_timestamp_us: 10,
                    frame_id: 7,
                    has_rtp_timestamp: false,
                    rtp_timestamp: 0,
                    ssrc: 0,
                    has_keyframe: false,
                    is_keyframe: false,
                })
            }
        },
        |_: &Rc<Native>| panic!("an observer is set"),
    );
    assert_eq!(publish_v2.get(), 3);
}

#[test]
fn installing_an_observer_does_not_call_it() {
    let handler = receiver_handler();
    let installed = Cell::new(false);
    handler.set_subscribe_timing_observer(
        Some(|_: SubscribeTimingEvent| panic!("there was no event")),
        |_: &Rc<Native>, _| installed.set(true),
        |_: &Rc<Native>| panic!("an observer is set"),
    );
    assert!(installed.get());
}

#[test]
fn clones_share_the_native_object() {
    let handler = receiver_handler();
    let copy = handler.clone().clone();
    handler.sys_handle().received.borrow_mut().insert(1, (2, 3, vec![4]));

    assert!(Rc::ptr_eq(&handler.sys_handle(), &copy.sys_handle()));
    copy.set_enabled(true, |native: &Rc<Native>, on: bool| native.enabled.set(on));
    assert!(handler.enabled(|native: &Rc<Native>| native.enabled.get()));
    assert_eq!(lookup(&copy, 5), None);
    assert_eq!(lookup(&copy, 1), Some((2, 3, vec![4])));
    assert_eq!(lookup(&handler, 1), None);
}

#[test]
fn without_an_observer_the_native_callback_is_cleared() {
    let handler = receiver_handler();
    let cleared = Cell::new(0);
    handler.set_publish_timing_observer(
        None::<fn(PublishTimingEvent)>,
        |_: &Rc<Native>, _| panic!("there is no observer"),
        |_: &Rc<Native>| cleared.set(cleared.get() + 1),
    );
    handler.set_publish_timing_observer_v2(
        None::<fn(PublishTimingEventV2)>,
        |_: &Rc<Native>, _| panic!("there is no observer"),
        |_: &Rc<Native>| cleared.set(cleared.get() + 10),
    );
    handler.set_subscribe_timing_observer(
        None::<fn(SubscribeTimingEvent)>,
        |_: &Rc<Native>, _| panic!("there is no observer"),
        |_: &Rc<Native>| cleared.set(cleared.get() + 100),
    );
    assert_eq!(cleared.get(), 111);
}

#[test]
fn stored_metadata_comes_out_of_a_lookup() {
    let sender = receiver_handler();
    let receiver = receiver_handler();
    let frames = receiver.sys_handle();
    sender.store_frame_metadata(
        123_000,
        987_654,
        7,
        &[1, 2, 3],
        |_: &Rc<Native>, _: i64, user: u64, frame_id: u32, user_data: &[u8]| {
            frames.received.borrow_mut().insert(90_000, (user, frame_id, user_data.to_vec()));
        },
    );
    assert_eq!(lookup(&receiver, 90_000), Some((987_654, 7, vec![1, 2, 3])));
}

type Publish = Box<dyn Fn(PublishTimingEvent)>;
type PublishV2 = Box<dyn Fn(PublishTimingEventV2)>;

/// A native handler that keeps its publish callbacks.
#[derive(Default)]
struct Callbacks {
    publish: RefCell<Option<PublishTimingCallback<Publish>>>,
    publish_v2: RefCell<Option<PublishTimingCallbackV2<PublishV2>>>,
}

impl Callbacks {
    fn report(&self, frame_id: u32) {
        let stage = VideoPublishTimingStage { repr: 2 };
        if let Some(callback) = &*self.publish.borrow() {
            callback.for_event().on_publish_timing(VideoPublishTimingEvent {
                stage,
                timestamp_us: 20,
                capture_timestamp_us: 10,
                frame_id,
            })
        }
        if let Some(callback) = &*self.publish_v2.borrow() {
            callback.for_event().on_publish_timing_v2(VideoPublishTimingEventV2 {
                stage,
                timestamp_us: 20,
                capture_timestamp_us: 10,
                frame_id,
                has_rtp_timestamp: true,
                rtp_timestamp: 0,
                ssrc: 42,
                has_keyframe: true,
                is_keyframe: true,
            })
        }
    }
}

fn set_publish(handler: &PacketTrailerHandler<Rc<Callbacks>>, observer: Option<Publish>) {
    handler.set_publish_timing_observer(
        observer,
        |native: &Rc<Callbacks>, callback| *native.publish.borrow_mut() = Some(callback),
        |native: &Rc<Callbacks>| *native.publish.borrow_mut() = None,
    )
}

fn set_publish_v2(handler: &PacketTrailerHandler<Rc<Callbacks>>, observer: Option<PublishV2>) {
    handler.set_publish_timing_observer_v2(
        observer,
        |native: &Rc<Callbacks>, callback| *native.publish_v2.borrow_mut() = Some(callback),
        |native: &Rc<Callbacks>| *native.publish_v2.borrow_mut() = None,
    )
}

#[test]
fn observers_are_served_until_they_are_cleared_and_leave_each_other_in_place() {
    let handler = create_receiver_handler(&"factory", &"receiver", |_: &&str, _: &&str| {
        Rc::new(Callbacks::default())
    });
    let native = handler.sys_handle();
    let legacy = Rc::new(RefCell::new(Vec::new()));
    let v2 = Rc::new(RefCell::new(Vec::new()));

    let seen = legacy.clone();
    set_publish(&handler, Some(Box::new(move |event| seen.borrow_mut().push(event.frame_id))));
    native.report(1);
    let seen = v2.clone();
    set_publish_v2(&handler, Some(Box::new(move |event| seen.borrow_mut().push(event.frame_id))));
    native.report(2);
    assert_eq!(*legacy.borrow(), vec![Some(1), Some(2)]);
    assert_eq!(*v2.borrow(), vec![Some(2)]);

    set_publish_v2(&handler.clone(), None);
    native.report(3);
    assert_eq!(*legacy.borrow(), vec![Some(1), Some(2), Some(3)]);
    assert_eq!(*v2.borrow(), vec![Some(2)]);

    set_publish(&handler, None);
    native.report(4);
    assert_eq!(*legacy.borrow(), vec![Some(1), Some(2), Some(3)]);
    assert_eq!(*v2.borrow(), vec![Some(2)]);
}

fn media(repr: i32) -> impl FnOnce(&&str) -> MediaType {
    move |_: &&str| MediaType { repr }
}

#[test]
fn a_sender_without_video_is_rejected_before_anything_is_created() {
    for repr in [MediaType::AUDIO, MediaType::DATA, MediaType::UNSUPPORTED, -1, 4] {
        let result = try_create_sender_handler(
            &"factory",
            &"sender",
            media(repr),
            |_: &&str, _: &&str| -> Rc<Native> { panic!("a transformer is installed") },
            |_: &Rc<Native>| panic!("nothing was created"),
        );
        assert!(matches!(result, Err(PacketTrailerSenderError::NonVideoSender)));
        assert_eq!(
            require_video_sender(MediaType { repr }),
            Err(PacketTrailerSenderError::NonVideoSender)
        );
    }
    assert_eq!(require_video_sender(MediaType { repr: MediaType::VIDEO }), Ok(()));
}

#[test]
fn a_null_native_handle_is_rejected() {
    let result = try_create_sender_handler(
        &"factory",
        &"sender",
        media(MediaType::VIDEO),
        |_: &&str, _: &&str| None::<u8>,
        |native: &Option<u8>| native.is_none(),
    );
    assert!(matches!(result, Err(PacketTrailerSenderError::NativeRejected)));
    assert!(matches!(
        accept_native_sender(5, true),
        Err(PacketTrailerSenderError::NativeRejected)
    ));
}

#[test]
fn a_video_sender_gets_a_handler_on_the_native_handle() {
    let result = try_create_sender_handler(
        &"factory",
        &"sender",
        media(MediaType::VIDEO),
        |factory: &&str, sender: &&str| format!("{factory} {sender}"),
        |native: &String| native.is_empty(),
    );
    assert_eq!(result.map(|handler| handler.sys_handle()), Ok("factory sender".to_string()));
    assert_eq!(accept_native_sender(5, false).map(|handler| handler.sys_handle()), Ok(5));

    let handler = create_sender_handler(
        &"factory",
        &"sender",
        media(MediaType::VIDEO),
        |factory: &&str, sender: &&str| format!("{factory} {sender}"),
        |native: &String| native.is_empty(),
    );
    assert_eq!(handler.sys_handle(), "factory sender");
}

#[test]
fn a_receiver_handler_is_created_from_both_arguments() {
    let handler = create_receiver_handler(
        &"factory",
        &"receiver",
        |factory: &&str, receiver: &&str| format!("{factory} {receiver}"),
    );
    assert_eq!(handler.sys_handle(), "factory receiver");
}

#[test]
fn errors_have_their_messages() {
    assert_eq!(
        PacketTrailerSenderError::NonVideoSender.message(),
        "packet trailer sender must be a video RTP sender"
    );
    assert_eq!(
        PacketTrailerSenderError::NativeRejected.message(),
        "native packet trailer sender creation failed"
    );
    assert_eq!(
        PacketTrailerSenderError::NonVideoSender.creation_failure(),
        "create_sender_handler failed: packet trailer sender must be a video RTP sender"
    );
    assert_eq!(
        PacketTrailerSenderError::NativeRejected.creation_failure(),
        "create_sender_handler failed: native packet trailer sender creation failed"
    );
}
