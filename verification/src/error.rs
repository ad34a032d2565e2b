//! The errors the consumer engine surfaces. Every failure is returned, never
//! swallowed; the engine retries nothing itself.

use vstd::prelude::*;
use vstd::string::StringExecFns;

verus! {

/// Errors surfaced by the consumer engine.
#[derive(Debug)]
pub enum ConsumerError {
    /// Transport-level failure to establish or use the session. Fatal to the
    /// current cycle; the text comes from the broker client.
    ConnectionError(String),
    /// A read or reclaim was attempted before connecting.
    NotConnected,
    /// The broker reported a stream outside the configured set: a
    /// broker/client desync, surfaced without touching any cursor.
    InvalidStreamName(String),
}

impl ConsumerError {
    /// Wraps a broker error as a connection failure, keeping its text.
    pub fn from_redis_error(e: &redis::RedisError) -> (r: ConsumerError)
        ensures
            r is ConnectionError,
    {
        ConsumerError::ConnectionError(crate::broker::redis_error_text(e))
    }

    /// A human-readable description of the error.
    pub fn message(&self) -> (r: String)
        ensures
            match self {
                ConsumerError::ConnectionError(t) => r@ == "cannot connect to Redis: "@ + t@,
                ConsumerError::NotConnected => r@ == "you must connect to Redis before streaming"@,
                ConsumerError::InvalidStreamName(s) => r@
                    == "retrieved message from invalid stream: "@ + s@,
            },
    {
        match self {
            ConsumerError::ConnectionError(t) => {
                "cannot connect to Redis: ".to_owned().concat(t.as_str())
            },
            ConsumerError::NotConnected => "you must connect to Redis before streaming".to_owned(),
            ConsumerError::InvalidStreamName(s) => {
                "retrieved message from invalid stream: ".to_owned().concat(s.as_str())
            },
        }
    }
}

} // verus!
