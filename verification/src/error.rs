//! Errors reported by the watcher.

use vstd::prelude::*;
use vstd::std_specs::convert::FromSpecImpl;

verus! {

/// The error type of the Redis driver, carried through unread.
#[verifier::external_type_specification]
#[verifier::external_body]
pub struct ExRedisError(redis::RedisError);

/// The error type of the JSON parser, carried through unread.
#[verifier::external_type_specification]
#[verifier::external_body]
pub struct ExJsonError(serde_json::Error);

/// What can go wrong in a watcher.
#[derive(Debug)]
pub enum WatcherError {
    /// The Redis target was refused or the connection broke.
    RedisConnection(redis::RedisError),
    /// A payload is not the wire form of a message.
    Serialization(serde_json::Error),
    /// No callback is registered; delivery is skipped.
    CallbackNotSet,
    /// The watcher was closed before the operation.
    AlreadyClosed,
    /// The options cannot be used, with the reason.
    Configuration(String),
    /// The surrounding runtime failed, with the reason.
    Runtime(String),
}

/// Text in front of the driver's own words in a connection error.
pub open spec fn redis_connection_prefix() -> Seq<char> {
    "Redis connection error: "@
}

/// Text in front of the parser's own words in a serialization error.
pub open spec fn serialization_prefix() -> Seq<char> {
    "Serialization error: "@
}

/// Text in front of the reason of a configuration error.
pub open spec fn configuration_prefix() -> Seq<char> {
    "Configuration error: "@
}

/// Text in front of the reason of a runtime error.
pub open spec fn runtime_prefix() -> Seq<char> {
    "Runtime error: "@
}

/// Whether `text` is the description of `error`: fixed words, and behind
/// them the reason or the foreign error's own words where there are any.
pub open spec fn describes(error: WatcherError, text: Seq<char>) -> bool {
    match error {
        WatcherError::RedisConnection(inner) => text == redis_connection_prefix()
            + redis_error_words(inner),
        WatcherError::Serialization(inner) => text == serialization_prefix() + json_error_words(
            inner,
        ),
        WatcherError::CallbackNotSet => text == "Callback not set"@,
        WatcherError::AlreadyClosed => text == "Watcher already closed"@,
        WatcherError::Configuration(reason) => text == configuration_prefix() + reason@,
        WatcherError::Runtime(reason) => text == runtime_prefix() + reason@,
    }
}

/// The words of a driver error: what the `Display` impl of
/// `redis::RedisError` writes for it.
pub uninterp spec fn redis_error_words(error: redis::RedisError) -> Seq<char>;

/// The words of a driver error, as its `Display` impl in `redis` writes
/// them (`ToString::to_string` on `redis::RedisError`).
#[verifier::external_body]
pub(crate) fn redis_error_detail(error: &redis::RedisError) -> (text: String)
    ensures
        text@ == redis_error_words(*error),
{
    error.to_string()
}

/// The words of a parser error: what the `Display` impl of
/// `serde_json::Error` writes for it.
pub uninterp spec fn json_error_words(error: serde_json::Error) -> Seq<char>;

/// Whether `text` ends in a decimal digit.
pub open spec fn ends_in_digit(text: Seq<char>) -> bool {
    text.len() > 0 && '0' <= text.last() && text.last() <= '9'
}

/// The words of a parser error, as its `Display` impl in `serde_json` writes
/// them (`ToString::to_string` on `serde_json::Error`).
#[verifier::external_body]
pub(crate) fn json_error_detail(error: &serde_json::Error) -> (text: String)
    ensures
        text@ == json_error_words(*error),
{
    error.to_string()
}

impl WatcherError {
    /// The description of this error in words.
    pub fn to_string(&self) -> (text: String)
        ensures
            describes(*self, text@),
    {
        match self {
            WatcherError::RedisConnection(inner) => {
                let detail = redis_error_detail(inner);
                let mut text = String::from_str("Redis connection error: ");
                text.append(detail.as_str());
                assert(text@ == redis_connection_prefix() + detail@);
                text
            },
            WatcherError::Serialization(inner) => {
                let detail = json_error_detail(inner);
                let mut text = String::from_str("Serialization error: ");
                text.append(detail.as_str());
                assert(text@ == serialization_prefix() + detail@);
                text
            },
            WatcherError::CallbackNotSet => String::from_str("Callback not set"),
            WatcherError::AlreadyClosed => String::from_str("Watcher already closed"),
            WatcherError::Configuration(reason) => {
                let mut text = String::from_str("Configuration error: ");
                text.append(reason.as_str());
                text
            },
            WatcherError::Runtime(reason) => {
                let mut text = String::from_str("Runtime error: ");
                text.append(reason.as_str());
                text
            },
        }
    }
}

impl From<redis::RedisError> for WatcherError {
    fn from(error: redis::RedisError) -> (r: WatcherError) {
        WatcherError::RedisConnection(error)
    }
}

impl FromSpecImpl<redis::RedisError> for WatcherError {
    open spec fn obeys_from_spec() -> bool {
        true
    }

    open spec fn from_spec(error: redis::RedisError) -> WatcherError {
        WatcherError::RedisConnection(error)
    }
}

impl From<serde_json::Error> for WatcherError {
    fn from(error: serde_json::Error) -> (r: WatcherError) {
        WatcherError::Serialization(error)
    }
}

impl FromSpecImpl<serde_json::Error> for WatcherError {
    open spec fn obeys_from_spec() -> bool {
        true
    }

    open spec fn from_spec(error: serde_json::Error) -> WatcherError {
        WatcherError::Serialization(error)
    }
}

} // verus!
