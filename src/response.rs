//! Deciding what a response means: its status class where the request asks
//! for that, then the expected shape, then the API's error payload.
use vstd::prelude::*;
use crate::error::{Error, opt_view};
use crate::json::{api_error_fields, decode_api_error};
use crate::session::{Data, Method, Request, authorized_call};

verus! {

/// A 4xx status.
pub open spec fn is_client_status(status: u16) -> bool {
    400 <= status <= 499
}

/// A 5xx status.
pub open spec fn is_server_status(status: u16) -> bool {
    500 <= status <= 599
}

/// A 2xx status.
pub open spec fn is_success_status(status: u16) -> bool {
    200 <= status <= 299
}

/// What a response resolves to. `decoded` is the outcome of decoding `body`
/// as the expected type (its failure message on failure). Where the request
/// checks the status, a 4xx or 5xx status decides alone; otherwise a decoded
/// value is the result; otherwise an error payload in the body is the
/// result; otherwise the first decoding failure is.
pub open spec fn resolved<T>(
    checks_status: bool,
    status: u16,
    body: Seq<u8>,
    decoded: Result<T, String>,
    r: Result<T, Error>,
) -> bool {
    if checks_status && is_client_status(status) {
        r == Err::<T, Error>(Error::Client(status))
    } else if checks_status && is_server_status(status) {
        r == Err::<T, Error>(Error::Server(status))
    } else {
        match decoded {
            Ok(t) => r == Ok::<T, Error>(t),
            Err(m) => match api_error_fields(body) {
                Some(fields) => match r {
                    Err(Error::Api(a)) => fields == (a.error@, opt_view(a.error_description)),
                    _ => false,
                },
                None => r == Err::<T, Error>(Error::Serde(m)),
            },
        }
    }
}

/// Resolves a response of status `status` and body `body`, given the outcome
/// of decoding the body as the expected type.
pub fn resolve<T>(checks_status: bool, status: u16, body: &[u8], decoded: Result<T, String>) -> (r:
    Result<T, Error>)
    ensures
        resolved(checks_status, status, body@, decoded, r),
{
    if checks_status && 400 <= status && status <= 499 {
        return Err(Error::Client(status));
    }
    if checks_status && 500 <= status && status <= 599 {
        return Err(Error::Server(status));
    }
    match decoded {
        Ok(t) => Ok(t),
        Err(m) => match decode_api_error(body) {
            Some(a) => Err(Error::Api(a)),
            None => Err(Error::Serde(m)),
        },
    }
}

/// A successful response whose body decodes as the expected type resolves
/// to exactly the decoded value.
pub proof fn lemma_success_returned<T>(
    checks_status: bool,
    status: u16,
    body: Seq<u8>,
    t: T,
    r: Result<T, Error>,
)
    requires
        is_success_status(status),
        resolved(checks_status, status, body, Ok(t), r),
    ensures
        r == Ok::<T, Error>(t),
{
}

/// A body that does not decode as the expected type but holds the error
/// payload resolves to that payload, field for field, and never to a
/// decoding failure, whatever the status, unless the request checks the
/// status and the status is 4xx or 5xx.
pub proof fn lemma_error_payload_wins<T>(
    checks_status: bool,
    status: u16,
    body: Seq<u8>,
    m: String,
    r: Result<T, Error>,
)
    requires
        !(checks_status && (is_client_status(status) || is_server_status(status))),
        api_error_fields(body) is Some,
        resolved(checks_status, status, body, Err(m), r),
    ensures
        match r {
            Err(Error::Api(a)) => api_error_fields(body) == Some(
                (a.error@, opt_view(a.error_description)),
            ),
            _ => false,
        },
        !(r matches Err(Error::Serde(_))),
{
}

/// For a request that checks the status, a 4xx response resolves to the
/// client error with that status, whatever its body.
pub proof fn lemma_client_status_first<T>(
    status: u16,
    body: Seq<u8>,
    decoded: Result<T, String>,
    r: Result<T, Error>,
)
    requires
        is_client_status(status),
        resolved(true, status, body, decoded, r),
    ensures
        r == Err::<T, Error>(Error::Client(status)),
{
}

/// A successful response whose body matches neither the expected type nor
/// the error payload resolves to the failure of the first decoding.
pub proof fn lemma_first_failure_kept<T>(
    checks_status: bool,
    status: u16,
    body: Seq<u8>,
    m: String,
    r: Result<T, Error>,
)
    requires
        is_success_status(status),
        api_error_fields(body) is None,
        resolved(checks_status, status, body, Err(m), r),
    ensures
        r == Err::<T, Error>(Error::Serde(m)),
{
}

/// For the plan of an operation that checks the status (a profile update, a
/// route with a JSON or multipart body), a 4xx answer resolves to the client
/// error with that status, whatever its body.
pub proof fn lemma_checked_plan_status_first<T>(
    data: Data,
    method: Method,
    url: Seq<char>,
    q: Request,
    status: u16,
    body: Seq<u8>,
    decoded: Result<T, String>,
    r: Result<T, Error>,
)
    requires
        authorized_call(data, method, url, true, Ok(q)),
        is_client_status(status),
        resolved(q.checks_status, status, body, decoded, r),
    ensures
        r == Err::<T, Error>(Error::Client(status)),
{
}

/// For the plan of an operation that does not check the status (a GET, a new
/// status), a body that does not decode as the expected type but holds the
/// error payload resolves to that payload, field for field, whatever the
/// status.
pub proof fn lemma_unchecked_plan_payload_wins<T>(
    data: Data,
    method: Method,
    url: Seq<char>,
    q: Request,
    status: u16,
    body: Seq<u8>,
    m: String,
    r: Result<T, Error>,
)
    requires
        authorized_call(data, method, url, false, Ok(q)),
        api_error_fields(body) is Some,
        resolved(q.checks_status, status, body, Err(m), r),
    ensures
        match r {
            Err(Error::Api(a)) => api_error_fields(body) == Some(
                (a.error@, opt_view(a.error_description)),
            ),
            _ => false,
        },
{
}

/// Whether two resolved results agree: the same value, or the same error
/// with equal fields.
pub open spec fn same_outcome<T>(r1: Result<T, Error>, r2: Result<T, Error>) -> bool {
    match (r1, r2) {
        (Err(Error::Api(a1)), Err(Error::Api(a2))) => a1.error@ == a2.error@ && opt_view(
            a1.error_description,
        ) == opt_view(a2.error_description),
        _ => r1 == r2,
    }
}

/// Resolving the same response twice, with the same decoded outcome, gives
/// results that agree field for field: nothing is carried between calls.
pub proof fn lemma_resolve_deterministic<T>(
    checks_status: bool,
    status: u16,
    body: Seq<u8>,
    decoded: Result<T, String>,
    r1: Result<T, Error>,
    r2: Result<T, Error>,
)
    requires
        resolved(checks_status, status, body, decoded, r1),
        resolved(checks_status, status, body, decoded, r2),
    ensures
        same_outcome(r1, r2),
{
}

} // verus!
