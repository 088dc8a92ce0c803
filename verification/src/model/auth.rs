//! Credentials as they arrive on a request, and their extraction into a
//! single typed value.
//!
//! A request may carry an API key header, a bearer-token header, both, or
//! neither. Extraction never rejects: absence is represented as a value. An
//! empty API key counts as "not provided", and a bearer header without the
//! literal `Bearer ` prefix counts as "not provided" too. When both headers
//! are present, the API key takes precedence and the bearer token is never
//! inspected.

use vstd::prelude::*;

use vstd::string::StrSliceExecFns;

use crate::util::strings::str_eq;

verus! {

/// The bearer-token header's value, as the request carried it.
pub struct AuthJwtHeader(pub String);

/// The API-key header's value, as the request carried it.
pub struct ApiKeyHeader(pub String);

/// The one credential a request is taken to present.
pub enum Credential {
    /// Neither header carried a usable credential.
    Absent,
    /// A non-empty API key.
    ApiKey(String),
    /// The token part of a `Bearer `-prefixed authorization header.
    BearerJwt(String),
}

/// Whether the header value begins with the literal `Bearer ` prefix.
pub open spec fn spec_has_bearer_prefix(s: Seq<char>) -> bool {
    s.len() >= "Bearer "@.len() && s.subrange(0, "Bearer "@.len() as int) == "Bearer "@
}

/// The token that follows the `Bearer ` prefix.
pub open spec fn spec_bearer_token(s: Seq<char>) -> Seq<char> {
    s.subrange("Bearer "@.len() as int, s.len() as int)
}

/// What extraction yields for the given pair of header values.
pub open spec fn spec_credential_matches(
    api_key: Seq<char>,
    auth: Seq<char>,
    c: Credential,
) -> bool {
    if api_key.len() > 0 {
        c matches Credential::ApiKey(k) && k@ == api_key
    } else if spec_has_bearer_prefix(auth) {
        c matches Credential::BearerJwt(t) && t@ == spec_bearer_token(auth)
    } else {
        c matches Credential::Absent
    }
}

/// Turns the two header values into the request's one credential.
pub fn extract_credential(
    api_key_header: &ApiKeyHeader,
    auth_jwt_header: &AuthJwtHeader,
) -> (c: Credential)
    ensures
        spec_credential_matches(api_key_header.0@, auth_jwt_header.0@, c),
{
    proof {
        reveal_strlit("Bearer ");
    }
    if !api_key_header.0.as_str().is_empty() {
        return Credential::ApiKey(api_key_header.0.clone());
    }
    let auth: &str = auth_jwt_header.0.as_str();
    let n: usize = auth.unicode_len();
    if n >= 7 {
        let prefix: &str = auth.substring_char(0, 7);
        if str_eq(prefix, "Bearer ") {
            let token: &str = auth.substring_char(7, n);
            return Credential::BearerJwt(token.to_owned());
        }
    }
    Credential::Absent
}

} // verus!
