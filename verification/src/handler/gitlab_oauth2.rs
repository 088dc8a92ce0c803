//! The OAuth2 login and callback flow against the GitLab provider.
//!
//! Login builds the provider's authorization URL together with a fresh CSRF
//! token; the caller stores the token in the browser session and redirects.
//! The callback is judged in two steps with the upstream network calls in
//! between, made by the caller: first the CSRF correlation — the `state`
//! parameter must equal the stored token, before any upstream call is made —
//! and then, once the identity has been fetched, the allow-list check and
//! the issuance of a locally-signed JWT.

use vstd::prelude::*;

use oauth2::basic::BasicClient;
use oauth2::{AuthUrl, ClientId, CsrfToken, RedirectUrl, Scope};

use vstd::string::StringExecFns;

use crate::config::{spec_allowed, GatewayConfig};
use crate::util::jwt::{
    create_token, spec_decoded_claims, spec_hs256_decode, spec_hs256_token, SigningError,
    MIN_SECRET_BYTES,
};
use crate::util::strings::str_eq;

verus! {

/// The two query parameters the provider sends to the callback.
pub struct OAuthQuery {
    pub code: String,
    pub state: String,
}

/// One upstream identity binding, as the provider reports it.
pub struct Identity {
    pub provider: String,
    pub extern_uid: String,
}

/// The user profile fetched from the provider's user-info endpoint.
/// Ephemeral: it exists only while the callback is processed.
pub struct UserInfo {
    pub id: u64,
    pub name: String,
    pub username: String,
    pub email: String,
    pub commit_email: String,
    pub is_admin: bool,
    pub identities: Vec<Identity>,
    pub avatar_url: String,
}

/// What the login step hands back: where to send the browser, and the CSRF
/// token to hold in the session until the callback returns.
pub struct LoginRedirect {
    pub url: String,
    pub csrf_token: String,
}

/// Why the callback was rejected.
#[derive(Clone, Copy, Debug, PartialEq, Eq, Structural)]
pub enum CallbackError {
    /// The `state` parameter does not equal the stored CSRF token, or no
    /// token was stored.
    CsrfMismatch,
    /// The code-for-token exchange with the provider failed.
    UpstreamExchangeFailure,
    /// The user-info fetch from the provider failed.
    UpstreamIdentityFetchFailure,
    /// The fetched identity's email is not on the allow-list.
    NotAllowListed,
    /// The JWT could not be issued.
    Signing(SigningError),
}

/// Whether this string parses as a URL: what `url::Url::parse` decides.
pub uninterp spec fn spec_parses_as_url(s: Seq<char>) -> bool;

/// The authorization URL oauth2 builds from this endpoint, client id,
/// redirect URL, the three scopes and the state value.
pub uninterp spec fn spec_authorize_url(
    auth_url: Seq<char>,
    client_id: Seq<char>,
    redirect_url: Seq<char>,
    scope_a: Seq<char>,
    scope_b: Seq<char>,
    scope_c: Seq<char>,
    state: Seq<char>,
) -> Seq<char>;

/// Relies on oauth2's `CsrfToken::new_random`: the base64url encoding,
/// without padding, of 16 fresh random bytes — always 22 characters. Nothing
/// is assumed about which 22 characters come back.
#[verifier::external_body]
fn new_random_csrf() -> (r: String)
    ensures
        r@.len() == 22,
{
    CsrfToken::new_random().secret().clone()
}

/// Relies on oauth2's `Client::authorize_url` and on `AuthUrl::new` /
/// `RedirectUrl::new`, which accept exactly the strings `url::Url::parse`
/// accepts: given parseable endpoint and redirect strings, the resulting URL
/// is a deterministic function of the arguments shown.
#[verifier::external_body]
fn build_authorize_url(
    auth_url: &str,
    client_id: &str,
    redirect_url: &str,
    scope_a: &str,
    scope_b: &str,
    scope_c: &str,
    state: &str,
) -> (r: Option<String>)
    ensures
        (r is Some) == (spec_parses_as_url(auth_url@) && spec_parses_as_url(redirect_url@)),
        r matches Some(u) ==> u@ == spec_authorize_url(
            auth_url@,
            client_id@,
            redirect_url@,
            scope_a@,
            scope_b@,
            scope_c@,
            state@,
        ),
{
    let auth = match AuthUrl::new(auth_url.to_owned()) { Ok(a) => a, Err(_) => return None };
    let redirect = match RedirectUrl::new(redirect_url.to_owned()) {
        Ok(x) => x,
        Err(_) => return None,
    };
    let client = BasicClient::new(ClientId::new(client_id.to_owned()), None, auth, None)
        .set_redirect_uri(redirect);
    let state_owned = state.to_owned();
    let (url, _) = client.authorize_url(move || CsrfToken::new(state_owned)).add_scope(
        Scope::new(scope_a.to_owned()),
    ).add_scope(Scope::new(scope_b.to_owned())).add_scope(Scope::new(scope_c.to_owned())).url();
    Some(url.to_string())
}

/// The provider's authorization endpoint: the base URL with the fixed path
/// appended.
pub fn authorize_endpoint(config: &GatewayConfig) -> (r: String)
    ensures
        r@ == config.oauth_base_url@ + "/oauth/authorize"@,
{
    let mut endpoint: String = config.oauth_base_url.clone();
    endpoint.append("/oauth/authorize");
    endpoint
}

/// The provider's token endpoint, used by the caller for the code exchange.
pub fn token_endpoint(config: &GatewayConfig) -> (r: String)
    ensures
        r@ == config.oauth_base_url@ + "/oauth/token"@,
{
    let mut endpoint: String = config.oauth_base_url.clone();
    endpoint.append("/oauth/token");
    endpoint
}

/// The provider's user-info URL for a given access token.
pub fn user_info_url(config: &GatewayConfig, access_token: &str) -> (r: String)
    ensures
        r@ == config.oauth_base_url@ + "/api/v4/user?access_token="@ + access_token@,
{
    let mut url: String = config.oauth_base_url.clone();
    url.append("/api/v4/user?access_token=");
    url.append(access_token);
    url
}

/// Builds the authorization redirect for a login request: the provider's
/// authorization URL asking for the `read_user`, `email` and `profile`
/// scopes, bound to a fresh CSRF token that the caller must store in the
/// session. Fails exactly when the configured endpoint or redirect URL does
/// not parse as a URL.
pub fn oauth_login(config: &GatewayConfig) -> (r: Option<LoginRedirect>)
    ensures
        (r is Some) == (spec_parses_as_url(config.oauth_base_url@ + "/oauth/authorize"@)
            && spec_parses_as_url(config.oauth_redirect_url@)),
        r matches Some(l) ==> {
            &&& l.csrf_token@.len() == 22
            &&& l.url@ == spec_authorize_url(
                config.oauth_base_url@ + "/oauth/authorize"@,
                config.oauth_client_id@,
                config.oauth_redirect_url@,
                "read_user"@,
                "email"@,
                "profile"@,
                l.csrf_token@,
            )
        },
{
    let csrf_token = new_random_csrf();
    let endpoint = authorize_endpoint(config);
    match build_authorize_url(
        endpoint.as_str(),
        config.oauth_client_id.as_str(),
        config.oauth_redirect_url.as_str(),
        "read_user",
        "email",
        "profile",
        csrf_token.as_str(),
    ) {
        Some(url) => Some(LoginRedirect { url, csrf_token }),
        None => None,
    }
}

/// The CSRF correlation at the start of a callback, decided before any
/// upstream call: the `state` parameter must equal the stored token,
/// character for character, and a missing stored token always rejects. Only
/// a passing check hands back the authorization code to exchange.
pub fn oauth_callback_begin(query: &OAuthQuery, stored_csrf: Option<&String>) -> (r: Result<
    String,
    CallbackError,
>)
    ensures
        (r is Ok) == (stored_csrf matches Some(t) && t@ == query.state@),
        r matches Ok(code) ==> code@ == query.code@,
        r matches Err(e) ==> e == CallbackError::CsrfMismatch,
{
    match stored_csrf {
        Some(stored) => {
            if str_eq(stored.as_str(), query.state.as_str()) {
                Ok(query.code.clone())
            } else {
                Err(CallbackError::CsrfMismatch)
            }
        },
        None => Err(CallbackError::CsrfMismatch),
    }
}

/// The grant decision once the upstream identity has been fetched: a token
/// is issued exactly when the identity's email is on the allow-list and the
/// signing secret is long enough; an email off the list is never issued a
/// token.
pub fn oauth_callback_finish(user: &UserInfo, config: &GatewayConfig, now: u64) -> (r: Result<
    String,
    CallbackError,
>)
    requires
        now + config.token_ttl_seconds <= u64::MAX,
    ensures
        (r is Ok) == (spec_allowed(config.allow_list@, user.email@) && config.jwt_secret@.len()
            >= MIN_SECRET_BYTES),
        !spec_allowed(config.allow_list@, user.email@) ==> r == Err::<String, CallbackError>(
            CallbackError::NotAllowListed,
        ),
        spec_allowed(config.allow_list@, user.email@) && config.jwt_secret@.len()
            < MIN_SECRET_BYTES ==> r == Err::<String, CallbackError>(
            CallbackError::Signing(SigningError::SecretTooShort),
        ),
        r matches Ok(t) ==> {
            &&& t@ == spec_hs256_token(
                user.email@,
                (now + config.token_ttl_seconds) as u64,
                config.jwt_secret@,
            )
            &&& spec_hs256_decode(t@, config.jwt_secret@) == spec_decoded_claims(
                user.email@,
                (now + config.token_ttl_seconds) as u64,
            )
        },
{
    if !config.allows_email(user.email.as_str()) {
        return Err(CallbackError::NotAllowListed);
    }
    match create_token(
        user.email.as_str(),
        config.jwt_secret.as_slice(),
        now,
        config.token_ttl_seconds,
    ) {
        Ok(t) => Ok(t),
        Err(e) => Err(CallbackError::Signing(e)),
    }
}

} // verus!
