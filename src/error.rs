use vstd::prelude::*;

use crate::response::ResponseHead;

verus! {

/// Every failure the request edge can report.
#[derive(Debug, Clone, Copy, PartialEq, Eq, Structural)]
pub enum Error {
    /// The caller presented no credential at all.
    NoToken,
    /// The credential was rejected, or the lookup behind it went wrong in any way.
    AuthFailed,
    /// No backend connection could be had, or one could not be made ready.
    BackendUnavailable,
    /// The upstream service could not be reached for a relayed request.
    UpstreamUnavailable,
    /// The configuration read at start-up is unusable.
    ConfigurationInvalid,
}

/// The human-readable text of each error.
pub open spec fn error_text(e: Error) -> Seq<char> {
    match e {
        Error::NoToken => "No token provided"@,
        Error::AuthFailed => "Authentication failed"@,
        Error::BackendUnavailable => "Backend unavailable"@,
        Error::UpstreamUnavailable => "Upstream unavailable"@,
        Error::ConfigurationInvalid => "Invalid configuration"@,
    }
}

impl Error {
    /// Text that names the error, for logs.
    pub fn describe(&self) -> (r: &'static str)
        ensures
            r@ == error_text(*self),
    {
        match self {
            Error::NoToken => "No token provided",
            Error::AuthFailed => "Authentication failed",
            Error::BackendUnavailable => "Backend unavailable",
            Error::UpstreamUnavailable => "Upstream unavailable",
            Error::ConfigurationInvalid => "Invalid configuration",
        }
    }

    /// The answer a client gets for an error that reaches it: a bare
    /// internal error, with no detail of what went wrong.
    pub fn into_response(self) -> (r: ResponseHead)
        ensures
            r@.status == 500,
            r@.headers.len() == 0,
            r@.body == "Internal Server Error"@,
    {
        let mut r = ResponseHead::with_status(500);
        r.body = String::from_str("Internal Server Error");
        r
    }
}

} // verus!
