//! Errors reported by the library, and the API's own error payload.
use vstd::prelude::*;

verus! {

/// The view of an optional string.
pub open spec fn opt_view(o: Option<String>) -> Option<Seq<char>> {
    match o {
        Some(s) => Some(s@),
        None => None,
    }
}

/// Error returned from the Mastodon API.
#[derive(Clone, Debug)]
pub struct ApiError {
    /// The type of error.
    pub error: String,
    /// The description of the error.
    pub error_description: Option<String>,
}

/// The possible errors encountered using the Mastodon API.
#[derive(Debug)]
pub enum Error {
    /// Error payload returned by the API: something went wrong with the
    /// authentication or with the data sent.
    Api(ApiError),
    /// The body matched neither the expected shape nor the error payload: the
    /// failure of decoding it as the expected shape. Typically a breaking
    /// change in the API. Holds that failure's message.
    Serde(String),
    /// The HTTP transport failed (DNS, TLS, connection, timeout); holds its
    /// message.
    Http(String),
    /// Reading the response failed; holds the message.
    Io(String),
    /// A registration or token response lacked a field; holds its name.
    Protocol(String),
    /// Missing client id.
    ClientIdRequired,
    /// Missing client secret.
    ClientSecretRequired,
    /// Missing access token.
    AccessTokenRequired,
    /// The server answered with a 4xx status.
    Client(u16),
    /// The server answered with a 5xx status.
    Server(u16),
}

/// What the standard reason phrase of an HTTP status code is, if it has one.
pub uninterp spec fn canonical_reason(code: u16) -> Option<Seq<char>>;

/// Relies on `reqwest::StatusCode::from_u16` and
/// `StatusCode::canonical_reason`: the registered reason phrase of a status
/// code, which depends on the code alone.
#[verifier::external_body]
fn status_reason(code: u16) -> (r: Option<String>)
    ensures
        opt_view(r) == canonical_reason(code),
{
    reqwest::StatusCode::from_u16(code).ok().and_then(|s| s.canonical_reason()).map(String::from)
}

/// The phrase given for a status that has no registered reason.
pub open spec fn unknown_status_text() -> Seq<char> {
    "Unknown Status code"@
}

impl Error {
    /// A short human-readable description of the error.
    pub fn description(&self) -> (r: String)
        ensures
            match self {
                Error::Api(a) => r@ == match a.error_description {
                    Some(d) => d@,
                    None => a.error@,
                },
                Error::Http(m) => r@ == m@,
                Error::Io(m) => r@ == m@,
                Error::Protocol(f) => r@ == "missing field: "@ + f@,
                Error::Client(s) => r@ == match canonical_reason(*s) {
                    Some(t) => t,
                    None => unknown_status_text(),
                },
                Error::Server(s) => r@ == match canonical_reason(*s) {
                    Some(t) => t,
                    None => unknown_status_text(),
                },
                Error::ClientIdRequired => r@ == "ClientIdRequired"@,
                Error::ClientSecretRequired => r@ == "ClientSecretRequired"@,
                Error::AccessTokenRequired => r@ == "AccessTokenRequired"@,
                Error::Serde(m) => r@ == m@,
            },
    {
        match self {
            Error::Api(a) => match &a.error_description {
                Some(d) => d.clone(),
                None => a.error.clone(),
            },
            Error::Serde(m) => m.clone(),
            Error::Http(m) => m.clone(),
            Error::Io(m) => m.clone(),
            Error::Protocol(f) => String::from_str("missing field: ").concat(f.as_str()),
            Error::Client(s) | Error::Server(s) => match status_reason(*s) {
                Some(t) => t,
                None => String::from_str("Unknown Status code"),
            },
            Error::ClientIdRequired => String::from_str("ClientIdRequired"),
            Error::ClientSecretRequired => String::from_str("ClientSecretRequired"),
            Error::AccessTokenRequired => String::from_str("AccessTokenRequired"),
        }
    }
}

} // verus!
