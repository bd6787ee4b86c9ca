//! The receiver's configuration and its defaults.

use vstd::prelude::*;

verus! {

/// Everything the receiver is configured with.
#[derive(Debug, Clone, PartialEq, Eq)]
pub struct ReceiverConfig {
    pub server: ServerConfig,
    pub storage: StorageConfig,
}

/// Where the receiver listens, the token it expects and its body limit.
#[derive(Debug, Clone, PartialEq, Eq)]
pub struct ServerConfig {
    pub bind: String,
    pub token: String,
    pub max_text_kb: usize,
}

/// Whether and where received text is saved.
#[derive(Debug, Clone, PartialEq, Eq)]
pub struct StorageConfig {
    pub save_text: bool,
    pub directory: String,
}

/// The listening address used when none is configured.
pub fn default_bind() -> (r: String)
    ensures
        r@ == "0.0.0.0:4489"@,
{
    "0.0.0.0:4489".to_owned()
}

/// The body limit, in KiB, used when none is configured.
pub fn default_max_text_kb() -> (r: usize)
    ensures
        r == 1024,
{
    1024
}

/// The directory for saved text used when none is configured.
pub fn default_storage_dir() -> (r: String)
    ensures
        r@ == "./received"@,
{
    "./received".to_owned()
}

} // verus!
