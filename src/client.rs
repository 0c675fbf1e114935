//! Request addressing rules: where the credential goes, and how a failed
//! HTTP status becomes an error.

use crate::error::OramaError;
use crate::text::{concat, owned};
use vstd::prelude::*;

verus! {

/// API key position in the request
#[derive(Debug, Clone, Copy, PartialEq, Eq)]
pub enum ApiKeyPosition {
    Header,
    QueryParams,
}

/// Where a request carries its credential: an `Authorization` header value,
/// or an `api-key` query parameter value.
#[derive(Debug, Clone, PartialEq, Eq)]
pub enum Credential {
    Header(String),
    QueryParam(String),
}

/// The text of a bearer `Authorization` header.
pub open spec fn bearer_header(token: Seq<char>) -> Seq<char> {
    "Bearer "@ + token
}

/// Places the bearer token as the position asks.
pub fn credential_for(position: ApiKeyPosition, bearer: &str) -> (r: Credential)
    ensures
        position == ApiKeyPosition::Header ==> (r matches Credential::Header(h) && h@
            == bearer_header(bearer@)),
        position == ApiKeyPosition::QueryParams ==> (r matches Credential::QueryParam(p) && p@
            == bearer@),
{
    match position {
        ApiKeyPosition::Header => Credential::Header(concat("Bearer ", bearer)),
        ApiKeyPosition::QueryParams => Credential::QueryParam(owned(bearer)),
    }
}

/// The error for a response with a failure status `status` and body `body`:
/// 401 is an authentication failure, 400 a bad request, anything else an
/// API error with the body as its message.
pub fn error_for_status(status: u16, body: &str) -> (r: OramaError)
    ensures
        status == 401 ==> (r matches OramaError::Auth { message } && message@
            == "Unauthorized: are you using the correct API Key?"@),
        status == 400 ==> (r matches OramaError::Api { status: s, message } && s == 400
            && message@ == "Bad Request: "@ + body@),
        status != 401 && status != 400 ==> (r matches OramaError::Api { status: s, message }
            && s == status && message@ == body@),
{
    if status == 401 {
        OramaError::auth("Unauthorized: are you using the correct API Key?")
    } else if status == 400 {
        OramaError::Api { status, message: concat("Bad Request: ", body) }
    } else {
        OramaError::api(status, body)
    }
}

/// Whether an HTTP status is a success (2xx).
pub fn is_success(status: u16) -> (r: bool)
    ensures
        r == (200 <= status <= 299),
{
    200 <= status && status <= 299
}

} // verus!
