//! A resilient, filtered subscription session for a blockchain update feed.
//!
//! The crate builds a validated subscription request from structured filter
//! options, supervises the streaming connection with exponential backoff,
//! classifies failures as transient or permanent, processes inbound updates
//! (keepalive ping/pong, mid-stream resubscription), normalizes decoded
//! updates for display, and offers a diagnostic mode that compares two
//! independent encodings of each message byte for byte.

pub mod diagnostics;
pub mod dispatch;
pub mod encoders;
pub mod errors;
pub mod filters;
pub mod report;
pub mod session;
pub mod supervisor;
pub mod text;
pub mod update;
