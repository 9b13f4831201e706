//! A personal time tracker: a session is started, later stopped, and the
//! finished interval is appended to a store of records.
//!
//! The crate holds the tracker's state machine over an image of its two
//! durable resources, the session lock and the record store. A host program
//! loads the images, calls the tracker, and replays the journal of effects on
//! the real resources, in the journal's order.

pub mod cli;
mod clock;
pub mod error;
pub mod flatfile;
pub mod laws;
pub mod tracker;
