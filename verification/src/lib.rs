//! Text capture bridge: a local sender selects a screen region, captures it,
//! recognises its text and submits the text to a remote receiver.
//!
//! This crate holds the verified decisions of both programs: parsing the
//! selection geometry, turning tool output into text, building submissions
//! and receipts, authorising requests, and the configuration defaults.

pub mod text;
pub mod decode;
pub mod digest;
pub mod request_id;
pub mod common;
pub mod api;
pub mod receiver;
pub mod sender;
