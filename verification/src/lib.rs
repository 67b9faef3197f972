//! Coordination of background fetches of pull-request data.
//!
//! A caller that must not block starts a fetch session, polls for its
//! completion, and reads what was found. This library holds what such a
//! caller and its workers have to agree on:
//!
//! - [`store`]: the slots that hold the latest result of each kind of
//!   session, with their completion flags, and the shared error slot;
//! - [`pr`]: the published items and the hub that starts sessions, takes in
//!   what their workers hand over, and serves the reads;
//! - [`github`]: what a worker needs before it goes out to the tracker and
//!   what it makes of the replies, step by step;
//! - [`text`]: splitting text into pieces and lines;
//! - [`width`]: the display width of text, and truncation to a width.
//!
//! The library does no input or output and starts no thread. Its contracts
//! speak of one hub; a program that shares a hub between threads has to put
//! it behind a lock, so that each call is one step.

pub mod github;
pub mod pr;
pub mod store;
pub mod text;
pub mod width;
