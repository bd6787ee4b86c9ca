//! The receiving side: accepts recognised text over HTTP and may keep it on disk.

pub mod config;
pub mod ocr;
pub mod server;
pub mod storage;
