//! What the transport reports of one HTTP call.
//!
//! The transport itself lives outside this crate: it makes a single attempt
//! per call against [`AGENT_BASE_URL`], bounded by [`REQUEST_TIMEOUT_SECS`],
//! and hands back a [`RawResponse`] or a [`TransportError`]. It never
//! interprets a status code; that is done here.

use crate::status::HttpStatus;
use vstd::prelude::*;

verus! {

/// Base address of the agent's loopback HTTP interface.
pub const AGENT_BASE_URL: &'static str = "http://127.0.0.1:8741";

/// Upper bound on the duration of any single request, in seconds.
pub const REQUEST_TIMEOUT_SECS: u64 = 30;

/// Failure to obtain any response.
#[derive(Debug)]
pub enum TransportError {
    /// The connection could not be established or the timeout elapsed. The
    /// string is the transport's own description of what happened.
    Unreachable(String),
}

impl TransportError {
    /// The transport's description of the failure.
    pub open spec fn detail(self) -> Seq<char> {
        match self {
            TransportError::Unreachable(d) => d@,
        }
    }
}

/// A response as it arrived, whatever its status.
///
/// `text` is the body read as text, empty where it could not be read.
/// `decoded` is the body decoded to a `T`, or the reason why it could not be.
/// A transport reads the body once, so it may fill only the reading that the
/// status calls for ([`HttpStatus::is_success`] says which) and leave the
/// other one empty.
#[derive(Debug)]
pub struct RawResponse<T> {
    pub status: HttpStatus,
    pub text: String,
    pub decoded: Result<T, String>,
}

} // verus!
