use vstd::prelude::*;
use vstd::string::StrSliceExecFns;
use vstd::string::StringExecFns;

verus! {

/// The endpoint and token a session is configured with.
pub struct Credentials {
    pub endpoint: String,
    pub token: String,
}

/// Pairs the two optional configuration fields into credentials; both
/// must be present, anything less yields nothing.
pub fn credentials_from_fields(base_url: Option<String>, auth_token: Option<String>) -> (r: Option<
    Credentials,
>)
    ensures
        r is Some <==> (base_url is Some && auth_token is Some),
        r is Some ==> r.unwrap().endpoint == base_url.unwrap() && r.unwrap().token
            == auth_token.unwrap(),
{
    match (base_url, auth_token) {
        (Some(endpoint), Some(token)) => Some(Credentials { endpoint, token }),
        _ => None,
    }
}

/// `t` opens with the seven characters `bearer `, compared without regard
/// to ASCII case.
pub open spec fn has_bearer_prefix(t: Seq<char>) -> bool {
    &&& t.len() >= 7
    &&& (t[0] == 'b' || t[0] == 'B')
    &&& (t[1] == 'e' || t[1] == 'E')
    &&& (t[2] == 'a' || t[2] == 'A')
    &&& (t[3] == 'r' || t[3] == 'R')
    &&& (t[4] == 'e' || t[4] == 'E')
    &&& (t[5] == 'r' || t[5] == 'R')
    &&& t[6] == ' '
}

/// Whether the token already opens with a `bearer ` prefix, in any ASCII
/// case variant.
pub fn token_has_bearer_prefix(t: &str) -> (r: bool)
    ensures
        r == has_bearer_prefix(t@),
{
    if t.unicode_len() < 7 {
        return false;
    }
    let c0 = t.get_char(0);
    let c1 = t.get_char(1);
    let c2 = t.get_char(2);
    let c3 = t.get_char(3);
    let c4 = t.get_char(4);
    let c5 = t.get_char(5);
    let c6 = t.get_char(6);
    (c0 == 'b' || c0 == 'B') && (c1 == 'e' || c1 == 'E') && (c2 == 'a' || c2 == 'A') && (c3 == 'r'
        || c3 == 'R') && (c4 == 'e' || c4 == 'E') && (c5 == 'r' || c5 == 'R') && c6 == ' '
}

/// The authorization value the second provider is sent: the token as it
/// stands when it already carries a `bearer ` prefix, else with `Bearer `
/// put in front.
pub open spec fn bearer_of(t: Seq<char>) -> Seq<char> {
    if has_bearer_prefix(t) {
        t
    } else {
        "Bearer "@ + t
    }
}

/// Ensures the token carries a `Bearer ` prefix, adding one only when no
/// case variant of it is already there.
pub fn ensure_bearer(t: &str) -> (r: String)
    ensures
        r@ == bearer_of(t@),
{
    if token_has_bearer_prefix(t) {
        t.to_owned()
    } else {
        String::from_str("Bearer ").concat(t)
    }
}

/// The scheme and host that a URL string parses to, or nothing where it
/// is not an absolute URL with a host. The full behaviour (normalization,
/// case folding, punycode) belongs to the `url` crate; only the outcome
/// is named here.
pub uninterp spec fn url_scheme_host(s: Seq<char>) -> Option<(Seq<char>, Seq<char>)>;

/// Relies on url::Url::parse, Url::scheme and Url::host_str: parses an
/// absolute URL and hands back its scheme and host, or nothing when the
/// string does not parse or the URL has no host. The three calls form one
/// split, and its outcome depends on the input string alone.
#[verifier::external_body]
fn split_scheme_host(s: &str) -> (r: Option<(String, String)>)
    ensures
        r is Some <==> url_scheme_host(s@) is Some,
        r is Some ==> r.unwrap().0@ == url_scheme_host(s@).unwrap().0 && r.unwrap().1@
            == url_scheme_host(s@).unwrap().1,
{
    match url::Url::parse(s) {
        Ok(u) => match u.host_str() {
            Some(h) => Some((u.scheme().to_string(), h.to_string())),
            None => None,
        },
        Err(_) => None,
    }
}

/// The first provider's quota endpoint for a configured base URL: the
/// base URL's scheme and host with the fixed quota path behind them, or
/// nothing where the base URL yields no scheme and host.
pub fn zhipu_quota_url(base_url: &str) -> (r: Option<String>)
    ensures
        r is Some <==> url_scheme_host(base_url@) is Some,
        r is Some ==> r.unwrap()@ == url_scheme_host(base_url@).unwrap().0 + "://"@
            + url_scheme_host(base_url@).unwrap().1 + "/api/monitor/usage/quota/limit"@,
{
    match split_scheme_host(base_url) {
        Some((scheme, host)) => Some(
            scheme.concat("://").concat(host.as_str()).concat("/api/monitor/usage/quota/limit"),
        ),
        None => None,
    }
}

/// The second provider's fixed account endpoint.
pub fn yunyi_api_url() -> (r: &'static str)
    ensures
        r@ == "https://yunyi.cfd/user/api/v1/me"@,
{
    "https://yunyi.cfd/user/api/v1/me"
}

/// Putting a `Bearer ` prefix in place is idempotent: a token that went
/// through the transform once comes out of a second pass unchanged.
pub proof fn lemma_ensure_bearer_idempotent(t: Seq<char>)
    ensures
        bearer_of(bearer_of(t)) == bearer_of(t),
{
    if !has_bearer_prefix(t) {
        reveal_strlit("Bearer ");
        assert(has_bearer_prefix("Bearer "@ + t));
    }
}

} // verus!
