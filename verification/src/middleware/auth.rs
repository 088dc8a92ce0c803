//! The authentication gateway: the per-request decision that admits or
//! rejects a caller before any privileged action runs.
//!
//! The rule, per request and with no state kept across requests: a non-empty
//! API key admits exactly when it equals the configured key; otherwise a
//! `Bearer `-prefixed token admits exactly when the JWT codec accepts it at
//! the current moment; otherwise the request is rejected. A request carrying
//! both headers is judged by the API key alone. On rejection the downstream
//! action must not run; on admission its outcome is passed through untouched
//! — the caller of this decision enforces that, since the action itself is
//! not part of this library.

use vstd::prelude::*;

use crate::config::GatewayConfig;
use crate::model::auth::{
    extract_credential, spec_bearer_token, spec_has_bearer_prefix, ApiKeyHeader, AuthJwtHeader,
    Credential,
};
use crate::util::jwt::{spec_token_admits, validate_token};
use crate::util::strings::str_eq;

verus! {

/// Whether one extracted credential admits the request: an API key admits
/// exactly when it equals the configured key, character for character; a
/// bearer token admits exactly when the codec accepts it at `now`; absence
/// never admits.
pub open spec fn spec_credential_admits(
    c: Credential,
    key: Seq<char>,
    secret: Seq<u8>,
    now: u64,
) -> bool {
    match c {
        Credential::Absent => false,
        Credential::ApiKey(k) => k@ == key,
        Credential::BearerJwt(t) => spec_token_admits(t@, secret, now),
    }
}

/// Whether a request with these two header values is admitted.
pub open spec fn spec_admits(
    api_key: Seq<char>,
    auth: Seq<char>,
    key: Seq<char>,
    secret: Seq<u8>,
    now: u64,
) -> bool {
    if api_key.len() > 0 {
        api_key == key
    } else if spec_has_bearer_prefix(auth) {
        spec_token_admits(spec_bearer_token(auth), secret, now)
    } else {
        false
    }
}

/// Judges one extracted credential against the configuration.
pub fn authorize_credential(c: &Credential, config: &GatewayConfig, now: u64) -> (allowed: bool)
    ensures
        allowed == spec_credential_admits(*c, config.api_key@, config.jwt_secret@, now),
{
    match c {
        Credential::Absent => false,
        Credential::ApiKey(k) => str_eq(k.as_str(), config.api_key.as_str()),
        Credential::BearerJwt(t) => validate_token(
            t.as_str(),
            config.jwt_secret.as_slice(),
            now,
        ).is_ok(),
    }
}

/// The gateway decision for one request: extracts the credential the
/// request presents and judges it. `true` means the downstream action may
/// run; `false` means the request is rejected as unauthorized.
pub fn auth_middleware(
    api_key_header: &ApiKeyHeader,
    auth_jwt_header: &AuthJwtHeader,
    config: &GatewayConfig,
    now: u64,
) -> (allowed: bool)
    ensures
        allowed == spec_admits(
            api_key_header.0@,
            auth_jwt_header.0@,
            config.api_key@,
            config.jwt_secret@,
            now,
        ),
{
    let credential = extract_credential(api_key_header, auth_jwt_header);
    authorize_credential(&credential, config, now)
}

} // verus!
