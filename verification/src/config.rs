//! Process-wide configuration for the gateway, assembled once at startup
//! from plain values and read-only afterwards.
//!
//! Construction enforces the one hard requirement: the JWT signing secret
//! must be at least `MIN_SECRET_BYTES` bytes, and a shorter secret is a
//! startup failure, not a per-request one.

use vstd::prelude::*;

use vstd::string::StrSliceExecFns;

use crate::util::jwt::MIN_SECRET_BYTES;
use crate::util::strings::{str_eq, string_push};

verus! {

/// Everything the gateway reads at request time.
pub struct GatewayConfig {
    /// The static API key privileged callers may present.
    pub api_key: String,
    /// The shared secret that signs and verifies JWTs.
    pub jwt_secret: Vec<u8>,
    /// The email addresses permitted to obtain a session.
    pub allow_list: Vec<String>,
    /// The OAuth2 provider's base URL.
    pub oauth_base_url: String,
    /// This gateway's client id at the provider.
    pub oauth_client_id: String,
    /// This gateway's client secret at the provider.
    pub oauth_client_secret: String,
    /// Where the provider sends the browser back to.
    pub oauth_redirect_url: String,
    /// How long an issued token stays valid, in seconds.
    pub token_ttl_seconds: u64,
}

/// Why the configuration was rejected at startup.
#[derive(Clone, Copy, Debug, PartialEq, Eq, Structural)]
pub enum ConfigError {
    /// The signing secret has fewer than `MIN_SECRET_BYTES` bytes.
    SecretTooShort,
}

/// The views of a sequence of strings.
pub open spec fn spec_views_of(v: Seq<String>) -> Seq<Seq<char>> {
    v.map_values(|x: String| x@)
}

/// Splitting a string at every comma, keeping empty pieces, as the
/// allow-list is written in configuration: "" has the single piece "", and
/// "a,,b" has the pieces "a", "" and "b".
pub open spec fn spec_split_commas(s: Seq<char>) -> Seq<Seq<char>>
    decreases s.len(),
{
    if s.len() == 0 {
        seq![s]
    } else if s[0] == ',' {
        seq![Seq::<char>::empty()] + spec_split_commas(s.drop_first())
    } else {
        let rest = spec_split_commas(s.drop_first());
        seq![seq![s[0]] + rest[0]] + rest.drop_first()
    }
}

proof fn lemma_split_commas_nonempty(s: Seq<char>)
    ensures
        spec_split_commas(s).len() >= 1,
    decreases s.len(),
{
    if s.len() != 0 && s[0] != ',' {
        lemma_split_commas_nonempty(s.drop_first());
    }
}

/// The loop relation of `parse_allow_list`: the pieces already finished,
/// plus the piece being built joined onto the first piece of what remains,
/// make up the split of the whole string.
spec fn split_progress(s: Seq<char>, i: int, done: Seq<Seq<char>>, cur: Seq<char>) -> bool {
    let t = spec_split_commas(s.skip(i));
    spec_split_commas(s) == done + seq![cur + t[0]] + t.drop_first()
}

/// Splits a comma-separated configuration value into its pieces, empty
/// pieces included.
pub fn parse_allow_list(s: &str) -> (r: Vec<String>)
    ensures
        spec_views_of(r@) == spec_split_commas(s@),
{
    let n: usize = s.unicode_len();
    let mut out: Vec<String> = Vec::new();
    let mut cur: String = String::new();
    proof {
        lemma_split_commas_nonempty(s@);
        assert(s@.skip(0) =~= s@);
        let t = spec_split_commas(s@);
        assert(spec_split_commas(s@) =~~= spec_views_of(out@) + seq![cur@ + t[0]]
            + t.drop_first());
    }
    let mut i: usize = 0;
    while i < n
        invariant
            n == s@.len(),
            i <= n,
            split_progress(s@, i as int, spec_views_of(out@), cur@),
        decreases n - i,
    {
        let ghost prev_out = out@;
        let ghost prev_cur = cur@;
        let ghost t = spec_split_commas(s@.skip(i as int));
        proof {
            lemma_split_commas_nonempty(s@.skip(i as int));
            lemma_split_commas_nonempty(s@.skip(i as int + 1));
            assert(s@.skip(i as int).len() > 0);
            assert(s@.skip(i as int)[0] == s@[i as int]);
            assert(s@.skip(i as int).drop_first() =~= s@.skip(i as int + 1));
        }
        let ghost tn = spec_split_commas(s@.skip(i as int + 1));
        let c: char = s.get_char(i);
        if c == ',' {
            out.push(cur);
            cur = String::new();
            proof {
                assert(t =~~= seq![Seq::<char>::empty()] + tn);
                assert(spec_views_of(out@) =~~= spec_views_of(prev_out).push(prev_cur));
                assert(spec_views_of(prev_out) + seq![prev_cur + t[0]] + t.drop_first()
                    =~~= spec_views_of(out@) + seq![cur@ + tn[0]] + tn.drop_first());
            }
        } else {
            string_push(&mut cur, c);
            proof {
                assert(t =~~= seq![seq![s@[i as int]] + tn[0]] + tn.drop_first());
                assert(prev_cur + t[0] =~= cur@ + tn[0]);
                assert(spec_views_of(prev_out) + seq![prev_cur + t[0]] + t.drop_first()
                    =~~= spec_views_of(prev_out) + seq![cur@ + tn[0]] + tn.drop_first());
            }
        }
        i = i + 1;
    }
    proof {
        assert(s@.skip(n as int) =~= Seq::<char>::empty());
        let t = spec_split_commas(s@.skip(n as int));
        assert(t =~~= seq![Seq::<char>::empty()]);
    }
    let ghost prev_out = out@;
    out.push(cur);
    proof {
        assert(spec_views_of(out@) =~~= spec_views_of(prev_out).push(out@[prev_out.len() as int]@));
        assert(spec_views_of(out@) =~~= spec_split_commas(s@));
    }
    out
}

/// Whether `email` occurs, character for character, in the list.
pub open spec fn spec_allowed(list: Seq<String>, email: Seq<char>) -> bool {
    exists|i: int| 0 <= i < list.len() && list[i]@ == email
}

impl GatewayConfig {
    /// The invariant construction establishes.
    pub open spec fn wf(&self) -> bool {
        self.jwt_secret@.len() >= MIN_SECRET_BYTES
    }

    /// Assembles the configuration, rejecting a signing secret shorter than
    /// `MIN_SECRET_BYTES` bytes.
    pub fn new(
        api_key: String,
        jwt_secret: Vec<u8>,
        allow_list: Vec<String>,
        oauth_base_url: String,
        oauth_client_id: String,
        oauth_client_secret: String,
        oauth_redirect_url: String,
        token_ttl_seconds: u64,
    ) -> (r: Result<GatewayConfig, ConfigError>)
        ensures
            (r is Ok) == (jwt_secret@.len() >= MIN_SECRET_BYTES),
            r matches Err(e) ==> e == ConfigError::SecretTooShort,
            r matches Ok(c) ==> {
                &&& c.wf()
                &&& c.api_key == api_key
                &&& c.jwt_secret == jwt_secret
                &&& c.allow_list == allow_list
                &&& c.oauth_base_url == oauth_base_url
                &&& c.oauth_client_id == oauth_client_id
                &&& c.oauth_client_secret == oauth_client_secret
                &&& c.oauth_redirect_url == oauth_redirect_url
                &&& c.token_ttl_seconds == token_ttl_seconds
            },
    {
        if jwt_secret.len() < MIN_SECRET_BYTES {
            return Err(ConfigError::SecretTooShort);
        }
        Ok(
            GatewayConfig {
                api_key,
                jwt_secret,
                allow_list,
                oauth_base_url,
                oauth_client_id,
                oauth_client_secret,
                oauth_redirect_url,
                token_ttl_seconds,
            },
        )
    }

    /// Whether this email address is permitted to obtain a session.
    pub fn allows_email(&self, email: &str) -> (r: bool)
        ensures
            r == spec_allowed(self.allow_list@, email@),
    {
        let mut i: usize = 0;
        while i < self.allow_list.len()
            invariant
                i <= self.allow_list@.len(),
                forall|j: int| 0 <= j < i ==> self.allow_list@[j]@ != email@,
            decreases self.allow_list@.len() - i,
        {
            if str_eq(self.allow_list[i].as_str(), email) {
                return true;
            }
            i = i + 1;
        }
        false
    }
}

} // verus!
