//! The decisions of a document database gateway in front of PostgreSQL.
//!
//! The gateway accepts clients on TCP and on a Unix domain socket, tells TLS from
//! plain text by the first bytes, reads requests, lets the backend process them
//! and writes responses; it keeps the open multi-statement transactions of all
//! client sessions, and measures where the time of a request goes.
//!
//! Each of these is a state machine here: `action` says what is to be done next,
//! the caller does it, and `step` takes in what came of it. What is pure
//! computation, and the store of transactions, is done here in full.

pub mod address;
pub mod clock;
pub mod connection;
pub mod context;
pub mod error;
pub mod identity;
pub mod listener;
pub mod requests;
pub mod service;
pub mod text;
pub mod tls;
