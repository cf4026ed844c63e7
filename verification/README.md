# packet_trailer

Packet trailers carry user timestamps, frame IDs and user data in encoded video
frames from a WebRTC sender to its receivers. The native WebRTC layer embeds and
extracts them. This crate holds the rules around it, verified with Verus: which
senders may have a handler, what is asked of a native handler and in which order,
what its answers mean, and which events an observer sees.

- `src/native.rs`: the values exchanged with the native layer, as plain data.
- `src/timing.rs`: publish and subscribe timing events, and their laws.
- `src/observer.rs`: callbacks between native events and observers.
- `src/handler.rs`: the handler of one RTP stream.
- `src/create.rs`: creation of handlers, and its errors.
- `src/laws.rs`: what holds over several operations on one native handler.
- `src/slots.rs`: which observers a native handler serves.
- `app/`: the same interface on the `webrtc-sys` bindings.

The native operations come in as closures. A contract says which of them is
called and on what through `call_requires` and `call_ensures`, and holds for
every answer that they may give.
