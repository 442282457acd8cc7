//! Verified core of a school-athletics week-schedule service.
//!
//! The upstream calendar service answers a scripted request with a loosely
//! typed JSON payload of raw event records. This crate holds the verified
//! logic of that pipeline: decoding the tri-state boolean tokens the payload
//! uses, parsing its ad hoc date and time formats, filtering the records down
//! to home sport events, deriving the clean event fields, and shaping the
//! response envelope. The network call and the JSON (de)serialization stay
//! with the unverified shell around this crate.

pub mod clock;
pub mod date;
pub mod envelope;
pub mod errors;
pub mod event;
pub mod laws;
pub mod pipeline;
pub mod server;
pub mod text;
pub mod token;
