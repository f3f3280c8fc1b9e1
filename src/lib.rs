//! Verified core of a small motor-shop ordering workflow: the prospect record,
//! the layout of the prospect document, the replies of the HTTP handlers, the
//! records and notifications of the publish flow, and per-record reporting of
//! the queue-triggered intake flow.

pub mod prospect;
pub mod document;
pub mod reply;
pub mod message;
pub mod publish;
pub mod config;
pub mod intake;
