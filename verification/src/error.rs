//! The library's error type.

use vstd::prelude::*;

verus! {

/// Errors raised by the proxy engine, parsers and configuration store.
#[derive(Debug)]
pub enum Error {
    Config(String),
    Parse(String),
    Hwid(String),
    UnsupportedProtocol(String),
    Custom(String),
    /// An upstream network failure, with its description.
    Network(String),
    /// A malformed URL, with its description.
    Url(String),
    Serialization(String),
    Yaml(String),
    Base64(String),
    Io(String),
    Database(String),
    SubscriptionExpired,
    DeviceLimitExceeded { current: u32, limit: u32 },
}

} // verus!
