//! Observation of a document-store collection for new or changed records.
//!
//! The crate holds the decision logic of two observers, one that polls behind
//! a watermark and one that listens to a change feed, together with the event
//! filter they share, the snapshot lookup and the session vocabulary (errors,
//! exit codes, configuration). Every transition is a total function from the
//! current state and what the store answered to the next state, the events to
//! deliver and the next thing to ask of the store; the caller performs that
//! work and reports back.

pub mod filter;
pub mod record;
pub mod event;
pub mod session;
pub mod poll;
pub mod poll_laws;
pub mod feed;
pub mod timestamp;
pub mod snapshot;
pub mod config;
pub mod command;
