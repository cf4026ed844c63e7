//! Creation of sender and receiver handlers.
use vstd::prelude::*;
use crate::handler::PacketTrailerHandler;
use crate::native::MediaType;

verus! {

/// Error returned when creating a sender-side packet trailer handler.
#[derive(Debug, Clone, Copy, PartialEq, Eq, Structural)]
pub enum PacketTrailerSenderError {
    /// Packet trailer publish timing is defined only for video senders.
    NonVideoSender,
    /// The native layer rejected an otherwise valid video sender.
    NativeRejected,
}

impl PacketTrailerSenderError {
    /// Text of the error.
    pub open spec fn text(self) -> Seq<char> {
        match self {
            PacketTrailerSenderError::NonVideoSender => {
                "packet trailer sender must be a video RTP sender"@
            },
            PacketTrailerSenderError::NativeRejected => {
                "native packet trailer sender creation failed"@
            },
        }
    }

    /// Message shown for the error.
    pub fn message(&self) -> (message: String)
        ensures
            message@ == self.text(),
    {
        match self {
            PacketTrailerSenderError::NonVideoSender => {
                "packet trailer sender must be a video RTP sender".to_owned()
            },
            PacketTrailerSenderError::NativeRejected => {
                "native packet trailer sender creation failed".to_owned()
            },
        }
    }

    /// Message of the failure of a caller that cannot return the error.
    pub fn creation_failure(&self) -> (message: String)
        ensures
            message@ == "create_sender_handler failed: "@ + self.text(),
    {
        let message = self.message();
        "create_sender_handler failed: ".to_owned().concat(message.as_str())
    }
}

/// Checks that a sender of the given media type can have a packet trailer
/// handler.
pub fn require_video_sender(media_type: MediaType) -> (result: Result<(), PacketTrailerSenderError>)
    ensures
        match result {
            Ok(_) => media_type.repr == MediaType::VIDEO,
            Err(error) => media_type.repr != MediaType::VIDEO && error
                == PacketTrailerSenderError::NonVideoSender,
        },
{
    if !media_type.is_video() {
        return Err(PacketTrailerSenderError::NonVideoSender);
    }
    Ok(())
}

/// Handler on a native sender handler that was just created, or the error for a
/// native handle that is null.
pub fn accept_native_sender<H>(native: H, is_null: bool) -> (result: Result<
    PacketTrailerHandler<H>,
    PacketTrailerSenderError,
>)
    ensures
        match result {
            Ok(handler) => !is_null && handler@ == native,
            Err(error) => is_null && error == PacketTrailerSenderError::NativeRejected,
        },
{
    if is_null {
        return Err(PacketTrailerSenderError::NativeRejected);
    }
    Ok(PacketTrailerHandler::new(native))
}

/// Creates a sender-side packet trailer handler for a video RTP sender.
///
/// Returns an error before installing a transformer when `sender` is not a
/// video sender: `native_create`, which installs it, is called only where
/// `native_media_type` answers that `sender` sends video. `is_null` tells
/// whether the native handle that comes back is null.
pub fn try_create_sender_handler<P, S, H, M, C, N>(
    peer_factory: &P,
    sender: &S,
    native_media_type: M,
    native_create: C,
    is_null: N,
) -> (result: Result<PacketTrailerHandler<H>, PacketTrailerSenderError>) where
    M: FnOnce(&S) -> MediaType,
    C: FnOnce(&P, &S) -> H,
    N: FnOnce(&H) -> bool,

    requires
        call_requires(native_media_type, (sender,)),
        forall|media_type: MediaType| #[trigger]
            call_ensures(native_media_type, (sender,), media_type) && media_type.repr
                == MediaType::VIDEO ==> call_requires(native_create, (peer_factory, sender)),
        forall|media_type: MediaType, native: H| #[trigger]
            call_ensures(native_media_type, (sender,), media_type) && media_type.repr
                == MediaType::VIDEO && #[trigger] call_ensures(
                native_create,
                (peer_factory, sender),
                native,
            ) ==> call_requires(is_null, (&native,)),
    ensures
        exists|media_type: MediaType| #[trigger]
            call_ensures(native_media_type, (sender,), media_type) && match result {
                Ok(handler) => {
                    &&& media_type.repr == MediaType::VIDEO
                    &&& call_ensures(native_create, (peer_factory, sender), handler@)
                    &&& call_ensures(is_null, (&handler@,), false)
                },
                Err(PacketTrailerSenderError::NonVideoSender) => {
                    media_type.repr != MediaType::VIDEO
                },
                Err(PacketTrailerSenderError::NativeRejected) => {
                    &&& media_type.repr == MediaType::VIDEO
                    &&& exists|native: H| #[trigger]
                        call_ensures(native_create, (peer_factory, sender), native) && call_ensures(
                            is_null,
                            (&native,),
                            true,
                        )
                },
            },
{
    match require_video_sender(native_media_type(sender)) {
        Ok(()) => {},
        Err(error) => return Err(error),
    }
    let native = native_create(peer_factory, sender);
    let null = is_null(&native);
    accept_native_sender(native, null)
}

/// Create a sender-side packet trailer handler.
///
/// This handler will embed frame metadata into encoded frames before
/// they are packetized and sent. Use `store_frame_metadata()` to
/// associate metadata with a captured frame's capture timestamp.
///
/// Deprecated: use `try_create_sender_handler`, which takes any sender. Here
/// the sender must be a video sender that the native layer does not reject.
pub fn create_sender_handler<P, S, H, M, C, N>(
    peer_factory: &P,
    sender: &S,
    native_media_type: M,
    native_create: C,
    is_null: N,
) -> (handler: PacketTrailerHandler<H>) where
    M: FnOnce(&S) -> MediaType,
    C: FnOnce(&P, &S) -> H,
    N: FnOnce(&H) -> bool,

    requires
        call_requires(native_media_type, (sender,)),
        forall|media_type: MediaType| #[trigger]
            call_ensures(native_media_type, (sender,), media_type) ==> media_type.repr
                == MediaType::VIDEO,
        call_requires(native_create, (peer_factory, sender)),
        forall|native: H| #[trigger]
            call_ensures(native_create, (peer_factory, sender), native) ==> call_requires(
                is_null,
                (&native,),
            ) && !call_ensures(is_null, (&native,), true),
    ensures
        call_ensures(native_create, (peer_factory, sender), handler@),
        call_ensures(is_null, (&handler@,), false),
{
    try_create_sender_handler(
        peer_factory,
        sender,
        native_media_type,
        native_create,
        is_null,
    ).unwrap()
}

/// Create a receiver-side packet trailer handler.
///
/// This handler will extract frame metadata from received frames
/// and store them in a map keyed by RTP timestamp. Use
/// `lookup_frame_metadata(rtp_timestamp)` to retrieve the metadata
/// for a specific decoded frame.
pub fn create_receiver_handler<P, R, H, C>(
    peer_factory: &P,
    receiver: &R,
    native_create: C,
) -> (handler: PacketTrailerHandler<H>) where C: FnOnce(&P, &R) -> H
    requires
        call_requires(native_create, (peer_factory, receiver)),
    ensures
        call_ensures(native_create, (peer_factory, receiver), handler@),
{
    PacketTrailerHandler::new(native_create(peer_factory, receiver))
}

} // verus!
