//! The sending side: selects and captures a region, recognises its text and
//! submits it to the receiver.

pub mod capture;
pub mod client;
pub mod config;
pub mod ocr;
pub mod server;
pub mod watch;
