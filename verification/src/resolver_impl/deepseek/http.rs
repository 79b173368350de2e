//! How a failure of the HTTP layer is reported as a resolver error.
use vstd::prelude::*;
use vstd::string::*;

use crate::resolver::result::ResolveError;

verus! {

/// Why an HTTP exchange failed.
#[derive(Debug)]
pub enum HttpError {
    InvalidUrl(String),
    Timeout,
    ResponseBody(String),
    Decode(String),
    Unknown(String),
}

/// Maps a failure of the HTTP layer to a resolver error: a bad URL or
/// anything unknown as unknown, a timeout as a network failure (`timeout`),
/// an unreadable body as an API error with no status, and an undecodable
/// body as a JSON failure; the message is kept.
pub fn map_err(err: HttpError) -> (r: ResolveError)
    ensures
        match err {
            HttpError::InvalidUrl(m) => r == ResolveError::Unknown { message: m },
            HttpError::Unknown(m) => r == ResolveError::Unknown { message: m },
            HttpError::Timeout => r matches ResolveError::Network { message } && message@ == "timeout"@,
            HttpError::ResponseBody(m) => r == ResolveError::Api { status: 0, message: m },
            HttpError::Decode(m) => r == ResolveError::JsonSerde { message: m },
        },
{
    match err {
        HttpError::InvalidUrl(msg) => ResolveError::Unknown { message: msg },
        HttpError::Unknown(msg) => ResolveError::Unknown { message: msg },
        HttpError::Timeout => ResolveError::Network { message: "timeout".to_owned() },
        HttpError::ResponseBody(msg) => ResolveError::Api { status: 0, message: msg },
        HttpError::Decode(msg) => ResolveError::JsonSerde { message: msg },
    }
}

} // verus!
