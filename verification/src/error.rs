//! The error kinds of the client.

use vstd::prelude::*;

verus! {

/// Everything that can go wrong in the client, by kind.
///
/// `Transport` covers connection, timeout and HTTP-status failures reported
/// by the caller's transport; `Decode` covers malformed or unexpected JSON,
/// including the prefixed login bodies; `Cookie` covers jar insertion and
/// parsing failures; `Api` is an application-level failure: the server
/// answered, but with a non-zero `code`.
#[derive(Debug)]
pub enum Error {
    Transport(String),
    Decode(String),
    Cookie(String),
    Api { code: i64, message: String },
}

} // verus!
