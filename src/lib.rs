//! Client-side runtime for the OneBot v11 bot-control protocol: typed calls,
//! typed events, and the session logic (frame classification, event fan-out,
//! call correlation, connection lifecycle) that sits between them and a socket.
pub mod api;
pub mod connect;
pub mod event;
pub mod json;
pub mod message;
pub mod text;

pub use event::Event;
pub use message::segment::MessageSegment;
