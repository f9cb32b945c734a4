//! The pure half of the secret fetcher: given the plain outcome of the one
//! remote key-value read, decide the typed result that the caller sees.
//!
//! The network call itself is performed by the embedding process; it hands
//! back a [`BackendReply`] and this module turns it into a `Secret` or into
//! one of the distinguishable failure classes.

use vstd::prelude::*;

verus! {

/// The credential material retrieved from the backend at a given path.
#[derive(Debug, Clone)]
pub struct Secret {
    pub password: String,
}

/// The distinguishable ways a fetch can fail. Callers pattern-match on the
/// variant; none is ever collapsed into another.
#[derive(Debug, Clone, Copy, PartialEq, Eq)]
pub enum FetchError {
    /// The connection could not be built or the host was unreachable.
    ConnectionFailed,
    /// The backend rejected the token.
    AuthenticationFailed,
    /// No secret exists at the requested path.
    SecretNotFound,
    /// The response did not match the expected shape.
    DecodeFailed,
}

/// What the single remote read produced, reduced to plain values.
pub enum BackendReply {
    /// The read succeeded and decoded to this password.
    Found(String),
    /// No connection could be established.
    Unreachable,
    /// The backend refused the supplied token.
    AuthRejected,
    /// The backend holds nothing at the requested path.
    Missing,
    /// The response could not be decoded.
    Malformed,
}

/// The result owed to the caller for each possible backend reply.
pub open spec fn fetch_outcome(reply: BackendReply) -> Result<Secret, FetchError> {
    match reply {
        BackendReply::Found(p) => Ok(Secret { password: p }),
        BackendReply::Unreachable => Err(FetchError::ConnectionFailed),
        BackendReply::AuthRejected => Err(FetchError::AuthenticationFailed),
        BackendReply::Missing => Err(FetchError::SecretNotFound),
        BackendReply::Malformed => Err(FetchError::DecodeFailed),
    }
}

/// Turns the plain outcome of the remote read into the typed fetch result:
/// a fresh `Secret` on success, the matching failure class otherwise.
pub fn fetch_result(reply: BackendReply) -> (r: Result<Secret, FetchError>)
    ensures
        r == fetch_outcome(reply),
{
    match reply {
        BackendReply::Found(p) => Ok(Secret { password: p }),
        BackendReply::Unreachable => Err(FetchError::ConnectionFailed),
        BackendReply::AuthRejected => Err(FetchError::AuthenticationFailed),
        BackendReply::Missing => Err(FetchError::SecretNotFound),
        BackendReply::Malformed => Err(FetchError::DecodeFailed),
    }
}

/// The key-value mount under which every secret of this system lives.
pub fn secret_mount() -> (r: String)
    ensures
        r@ == "secret"@,
{
    String::from_str("secret")
}

} // verus!
