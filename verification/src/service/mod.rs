//! Serving a client: the flow of each message from the stream and back to it.

pub mod error_reply;
pub mod latency;
pub mod message;
pub mod message_laws;
pub mod request;
pub mod response;
pub mod stream;
