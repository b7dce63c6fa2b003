//! What the gateway keeps about each request.

pub mod request_tracker;
