//! The authorization step: the one place a human approves a client, by
//! entering the admin passphrase, before a single-use authorization code
//! is issued.
use vstd::prelude::*;
use vstd::string::StringExecFns;
use vstd::utf8::encode_utf8_decode_utf8;
use crate::codec::{form_component, form_pairs, form_urlencode, pair_views};
use crate::crypto::{constant_time_eq, is_ascii_alphanumeric, random_alphanumeric};
use crate::text::{contains_char, owned, same_text};

verus! {

/// How long an authorization code stays valid, in minutes.
pub const AUTH_CODE_TTL_MINUTES: i64 = 10;

/// How long an authorization code stays valid, in nanoseconds.
pub const AUTH_CODE_TTL_NANOS: i128 = 600_000_000_000;

/// The code lifetime in nanoseconds is the lifetime in minutes.
pub proof fn lemma_auth_code_ttl()
    ensures
        AUTH_CODE_TTL_NANOS == AUTH_CODE_TTL_MINUTES * 60 * 1_000_000_000,
{
}

/// The number of characters of an authorization code.
pub const AUTH_CODE_LEN: usize = 32;

/// The query of a request for the authorization page.
pub struct AuthorizeQuery {
    pub response_type: String,
    pub client_id: String,
    pub redirect_uri: String,
    pub state: Option<String>,
    pub code_challenge: String,
    pub code_challenge_method: String,
}

/// The form the authorization page submits.
pub struct AuthorizeSubmit {
    pub client_id: String,
    pub redirect_uri: String,
    pub code_challenge: String,
    pub code_challenge_method: String,
    pub state: Option<String>,
    pub passphrase: String,
}

/// Decides whether the authorization page may be shown: only for the
/// authorization-code flow with an `S256` code challenge. The error is the
/// text of the 400 response.
pub fn authorize_form(params: &AuthorizeQuery) -> (r: Result<(), String>)
    ensures
        r is Ok <==> params.response_type@ == "code"@ && params.code_challenge_method@ == "S256"@,
        params.response_type@ != "code"@ ==> (r matches Err(m) && m@
            == "unsupported response_type"@),
        params.response_type@ == "code"@ && params.code_challenge_method@ != "S256"@ ==> (r matches Err(
            m,
        ) && m@ == "unsupported code_challenge_method"@),
{
    if !same_text(params.response_type.as_str(), "code") {
        return Err(owned("unsupported response_type"));
    }
    if !same_text(params.code_challenge_method.as_str(), "S256") {
        return Err(owned("unsupported code_challenge_method"));
    }
    Ok(())
}

/// `base` with the form-encoded `pairs` appended as its query: after `?`,
/// or after `&` when `base` already has a query.
pub open spec fn query_url(base: Seq<char>, pairs: Seq<(Seq<char>, Seq<char>)>) -> Seq<char> {
    base + seq![if base.contains('?') { '&' } else { '?' }] + form_pairs(pairs)
}

/// Appends form-encoded name/value pairs to a URL as its query.
pub fn append_query(base: &str, pairs: &[(&str, &str)]) -> (r: String)
    ensures
        r@ == query_url(base@, pair_views(pairs@)),
{
    let query = form_urlencode(pairs);
    let separator = if contains_char(base, '?') { '&' } else { '?' };
    let mut r = owned(base);
    r.push(separator);
    r.append(query.as_str());
    r
}

/// The pairs that send a browser back to the authorization page after a
/// wrong passphrase: the request again, with an error, and the client's
/// state if it gave one.
pub open spec fn retry_pairs(body: AuthorizeSubmit) -> Seq<(Seq<char>, Seq<char>)> {
    let pairs = seq![
        ("response_type"@, "code"@),
        ("client_id"@, body.client_id@),
        ("redirect_uri"@, body.redirect_uri@),
        ("code_challenge"@, body.code_challenge@),
        ("code_challenge_method"@, body.code_challenge_method@),
        ("error"@, "incorrect passphrase"@),
    ];
    match body.state {
        Some(state) => pairs.push(("state"@, state@)),
        None => pairs,
    }
}

/// After a wrong passphrase the browser goes back to the form with the
/// whole request again, in this order: the response type `code`, the
/// client, its redirect URI, its code challenge and method, then the error,
/// and the client's state last when it gave one.
pub proof fn lemma_retry_repeats_the_request(body: AuthorizeSubmit)
    ensures
        retry_pairs(body).len() == if body.state is Some {
            7int
        } else {
            6int
        },
        retry_pairs(body)[0] == ("response_type"@, "code"@),
        retry_pairs(body)[1] == ("client_id"@, body.client_id@),
        retry_pairs(body)[2] == ("redirect_uri"@, body.redirect_uri@),
        retry_pairs(body)[3] == ("code_challenge"@, body.code_challenge@),
        retry_pairs(body)[4] == ("code_challenge_method"@, body.code_challenge_method@),
        retry_pairs(body)[5] == ("error"@, "incorrect passphrase"@),
        body.state matches Some(s) ==> retry_pairs(body)[6] == ("state"@, s@),
{
}

/// The pairs that hand an authorization code back to the client: the code,
/// and the client's state if it gave one.
pub open spec fn success_pairs(code: Seq<char>, state: Option<String>) -> Seq<(Seq<char>, Seq<char>)> {
    match state {
        Some(s) => seq![("code"@, code), ("state"@, s@)],
        None => seq![("code"@, code)],
    }
}

/// A successful authorization sends the browser to the client's redirect
/// URI with, as its query, the code as the first pair, then the client's
/// state when it gave one, and nothing else.
pub proof fn lemma_success_redirect_carries_code(
    redirect_uri: Seq<char>,
    code: Seq<char>,
    state: Option<String>,
)
    ensures
        query_url(redirect_uri, success_pairs(code, state)) == redirect_uri + seq![
            if redirect_uri.contains('?') {
                '&'
            } else {
                '?'
            },
        ] + form_component("code"@) + seq!['='] + form_component(code) + match state {
            Some(s) => seq!['&'] + form_component("state"@) + seq!['='] + form_component(s@),
            None => Seq::<char>::empty(),
        },
{
    let first = seq![("code"@, code)];
    assert(first.drop_last() =~= Seq::<(Seq<char>, Seq<char>)>::empty());
    assert(form_pairs(first.drop_last()) == Seq::<char>::empty());
    assert(first.last() == ("code"@, code));
    assert(form_pairs(first) =~= form_component("code"@) + seq!['='] + form_component(code));
    match state {
        Some(s) => {
            let pairs = seq![("code"@, code), ("state"@, s@)];
            assert(pairs.drop_last() =~= first);
            assert(pairs.last() == ("state"@, s@));
            assert(form_pairs(pairs) =~= form_pairs(first) + seq!['&'] + form_component("state"@)
                + seq!['='] + form_component(s@));
        },
        None => {},
    }
}

/// What the server does with a submitted authorization form, before it
/// knows whether the client is registered.
pub enum AuthorizeReply {
    /// Redirect the browser to this URL.
    Redirect(String),
    /// Answer 400 with this text.
    BadRequest(String),
    /// Look up whether the client is registered with the redirect URI, and
    /// continue with `authorize_registered_client`.
    CheckClient,
}

/// The first part of handling a submitted authorization form. A wrong
/// passphrase (compared in constant time) sends the browser back to the
/// form with an error; then the code challenge method must be `S256` and
/// the code challenge non-empty.
pub fn authorize_submit(body: &AuthorizeSubmit, admin_passphrase: &str) -> (r: AuthorizeReply)
    ensures
        body.passphrase@ != admin_passphrase@ ==> (r matches AuthorizeReply::Redirect(url) && url@
            == query_url("/authorize"@, retry_pairs(*body))),
        body.passphrase@ == admin_passphrase@ && body.code_challenge_method@ != "S256"@ ==> (r matches AuthorizeReply::BadRequest(
            m,
        ) && m@ == "unsupported code_challenge_method"@),
        body.passphrase@ == admin_passphrase@ && body.code_challenge_method@ == "S256"@
            && body.code_challenge@.len() == 0 ==> (r matches AuthorizeReply::BadRequest(m) && m@
            == "code_challenge must not be empty"@),
        r is CheckClient <==> body.passphrase@ == admin_passphrase@ && body.code_challenge_method@
            == "S256"@ && body.code_challenge@.len() > 0,
{
    let authorized = constant_time_eq(body.passphrase.as_str().as_bytes(), admin_passphrase.as_bytes());
    proof {
        encode_utf8_decode_utf8(body.passphrase@);
        encode_utf8_decode_utf8(admin_passphrase@);
    }
    if !authorized {
        let mut retry_params: Vec<(&str, &str)> = vec![
            ("response_type", "code"),
            ("client_id", body.client_id.as_str()),
            ("redirect_uri", body.redirect_uri.as_str()),
            ("code_challenge", body.code_challenge.as_str()),
            ("code_challenge_method", body.code_challenge_method.as_str()),
            ("error", "incorrect passphrase"),
        ];
        match &body.state {
            Some(state) => {
                retry_params.push(("state", state.as_str()));
            },
            None => {},
        }
        proof {
            assert(pair_views(retry_params@) =~= retry_pairs(*body));
        }
        return AuthorizeReply::Redirect(append_query("/authorize", retry_params.as_slice()));
    }
    if !same_text(body.code_challenge_method.as_str(), "S256") {
        return AuthorizeReply::BadRequest(owned("unsupported code_challenge_method"));
    }
    if body.code_challenge.as_str().is_empty() {
        return AuthorizeReply::BadRequest(owned("code_challenge must not be empty"));
    }
    AuthorizeReply::CheckClient
}

/// A freshly issued authorization code, as it is stored.
pub struct IssuedAuthCode {
    pub code: String,
    pub client_id: String,
    pub redirect_uri: String,
    pub code_challenge: String,
    /// Unix time, in nanoseconds, after which the code is no longer accepted.
    pub expires_at: i128,
}

/// What the server does once it knows whether the client is registered.
pub enum RegisteredClientReply {
    /// Answer 400 with this text.
    BadRequest(String),
    /// Store the code, then redirect the browser to the URL.
    StoreCode(IssuedAuthCode, String),
}

/// The last part of handling a submitted authorization form. An unknown
/// client or redirect URI is refused; otherwise a random 32-character
/// alphanumeric code is issued for the client, its redirect URI and its
/// code challenge, valid for ten minutes from `now` (Unix nanoseconds), and the
/// browser goes to the redirect URI with the code and the client's state.
pub fn authorize_registered_client(body: &AuthorizeSubmit, client_registered: bool, now: i128) -> (r:
    RegisteredClientReply)
    requires
        now + AUTH_CODE_TTL_NANOS <= i128::MAX,
    ensures
        !client_registered ==> (r matches RegisteredClientReply::BadRequest(m) && m@
            == "no such client/redirect_uri exists"@),
        client_registered ==> (r matches RegisteredClientReply::StoreCode(issued, url) && {
            &&& issued.code@.len() == AUTH_CODE_LEN
            &&& forall|i: int|
                0 <= i < issued.code@.len() ==> is_ascii_alphanumeric(#[trigger] issued.code@[i])
            &&& issued.client_id@ == body.client_id@
            &&& issued.redirect_uri@ == body.redirect_uri@
            &&& issued.code_challenge@ == body.code_challenge@
            &&& issued.expires_at == now + AUTH_CODE_TTL_NANOS
            &&& url@ == query_url(body.redirect_uri@, success_pairs(issued.code@, body.state))
        }),
{
    if !client_registered {
        return RegisteredClientReply::BadRequest(owned("no such client/redirect_uri exists"));
    }
    let code = random_alphanumeric(AUTH_CODE_LEN);
    let mut success_params: Vec<(&str, &str)> = vec![("code", code.as_str())];
    match &body.state {
        Some(state) => {
            success_params.push(("state", state.as_str()));
        },
        None => {},
    }
    proof {
        assert(pair_views(success_params@) =~= success_pairs(code@, body.state));
    }
    let url = append_query(body.redirect_uri.as_str(), success_params.as_slice());
    let issued = IssuedAuthCode {
        code,
        client_id: owned(body.client_id.as_str()),
        redirect_uri: owned(body.redirect_uri.as_str()),
        code_challenge: owned(body.code_challenge.as_str()),
        expires_at: now + AUTH_CODE_TTL_NANOS,
    };
    RegisteredClientReply::StoreCode(issued, url)
}

} // verus!
