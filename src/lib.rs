//! The routing core of an editor's backend process: envelopes exchanged with
//! the frontend, the table of outstanding outbound requests, the bookkeeping of
//! inbound requests that still owe a reply, the decisions of the routing loops,
//! and the single-instance coordination that forwards paths to a running
//! backend.

pub mod config;
pub mod envelope;
pub mod transport;
pub mod outbound;
pub mod inbound;
pub mod router;
pub mod coordinator;

pub use config::{application_name, version};
