//! Packet trailer support for end-to-end frame metadata propagation.
//!
//! User-supplied metadata travels in encoded video frames as trailers. The
//! timestamps and frame IDs are preserved through the WebRTC pipeline and can be
//! extracted on the receiver side. The native layer embeds and extracts the
//! trailers; this crate decides what is asked of it and what its answers mean.
//!
//! - [`native`]: the values exchanged with the native layer, as plain data.
//! - [`timing`]: publish and subscribe timing events.
//! - [`observer`]: callbacks that turn native events into timing events.
//! - [`handler`]: the handler of the packet trailers of one RTP stream.
//! - [`create`]: creation of sender and receiver handlers.
//! - [`laws`]: what holds over several operations on one native handler.
//! - [`operations`]: what each operation does, in terms of its inputs and results.
//! - [`slots`]: which observers a native handler serves.
pub mod create;
pub mod handler;
pub mod laws;
pub mod native;
pub mod observer;
pub mod operations;
pub mod slots;
pub mod timing;

pub use crate::create::create_receiver_handler;
pub use crate::create::create_sender_handler;
pub use crate::create::try_create_sender_handler;
pub use crate::create::PacketTrailerSenderError;
pub use crate::handler::PacketTrailerHandler;
pub use crate::timing::PublishTimingEvent;
pub use crate::timing::PublishTimingEventV2;
pub use crate::timing::PublishTimingStage;
pub use crate::timing::SubscribeTimingEvent;
pub use crate::timing::SubscribeTimingStage;
