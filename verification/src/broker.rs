//! Declarations of the broker client's types and the few synchronous calls
//! into it that the engine makes itself. Everything that touches the network
//! is issued by the caller, outside this crate.

use vstd::prelude::*;

verus! {

/// The broker client's connector. It only holds parsed connection
/// information; opening one performs no I/O.
#[verifier::external_type_specification]
#[verifier::external_body]
pub struct ExClient(redis::Client);

/// The broker client's error type, carried opaquely until it is turned into
/// a [`crate::error::ConsumerError`].
#[verifier::external_type_specification]
#[verifier::external_body]
pub struct ExRedisError(redis::RedisError);

/// A raw broker value. Stream entries carry their field values in this form,
/// untouched; the engine never looks inside one.
#[verifier::external_type_specification]
#[verifier::external_body]
pub struct ExValue(redis::Value);

/// Whether `redis::Client::open` accepts a connection URL. Opening performs
/// no I/O — it only parses the URL — so acceptance is a function of the URL
/// text alone.
pub uninterp spec fn url_accepted(url: Seq<char>) -> bool;

/// Relies on `redis::Client::open`: it parses the URL and returns a connector
/// without touching the network, failing exactly on a URL it does not accept.
#[verifier::external_body]
pub(crate) fn open_client(url: &str) -> (r: Result<redis::Client, redis::RedisError>)
    ensures
        r is Ok <==> url_accepted(url@),
{
    redis::Client::open(url)
}

/// Relies on `redis::RedisError`'s `Display` implementation for a
/// human-readable description of the error.
#[verifier::external_body]
pub(crate) fn redis_error_text(e: &redis::RedisError) -> (r: String) {
    format!("{}", e)
}

} // verus!
