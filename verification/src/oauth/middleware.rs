//! The bearer-token check in front of the tool endpoint, and the challenge
//! that sends an unauthenticated client to the discovery documents.
use vstd::prelude::*;
use crate::text::{join3, str_chars};
use crate::web::{header_value_accepts, header_value_ok};
use super::token::{hash_token, token_hash};

verus! {

/// `s` without `prefix`, when it begins with `prefix`.
pub open spec fn strip_prefix(s: Seq<char>, prefix: Seq<char>) -> Option<Seq<char>> {
    if s.len() >= prefix.len() && s.take(prefix.len() as int) == prefix {
        Some(s.skip(prefix.len() as int))
    } else {
        None
    }
}

/// The token of an `Authorization` header value: what follows `Bearer `.
pub open spec fn bearer_token(header: Seq<char>) -> Option<Seq<char>> {
    strip_prefix(header, "Bearer "@)
}

/// Removes `prefix` from the front of `s`, if `s` begins with it.
pub fn strip_str_prefix(s: &str, prefix: &str) -> (r: Option<String>)
    ensures
        r is Some <==> strip_prefix(s@, prefix@) is Some,
        r matches Some(t) ==> strip_prefix(s@, prefix@) == Some(t@),
{
    let chars = str_chars(s);
    let pre = str_chars(prefix);
    if chars.len() < pre.len() {
        return None;
    }
    let mut i: usize = 0;
    while i < pre.len()
        invariant
            chars@ == s@,
            pre@ == prefix@,
            pre.len() <= chars.len(),
            i <= pre.len(),
            forall|j: int| 0 <= j < i ==> chars@[j] == pre@[j],
        decreases pre.len() - i,
    {
        if chars[i] != pre[i] {
            proof {
                assert(s@.take(prefix@.len() as int)[i as int] != prefix@[i as int]);
            }
            return None;
        }
        i = i + 1;
    }
    proof {
        assert(s@.take(prefix@.len() as int) =~= prefix@);
    }
    let mut r = String::new();
    let mut k: usize = pre.len();
    while k < chars.len()
        invariant
            chars@ == s@,
            pre@ == prefix@,
            pre.len() <= k <= chars.len(),
            r@ == s@.subrange(prefix@.len() as int, k as int),
        decreases chars.len() - k,
    {
        r.push(chars[k]);
        proof {
            assert(s@.subrange(prefix@.len() as int, k + 1) =~= s@.subrange(
                prefix@.len() as int,
                k as int,
            ).push(s@[k as int]));
        }
        k = k + 1;
    }
    proof {
        assert(s@.subrange(prefix@.len() as int, s@.len() as int) =~= s@.skip(prefix@.len() as int));
    }
    Some(r)
}

/// The hash under which to look up the token an `Authorization` header
/// value presents: `None` when there is no header, or it is not of the form
/// `Bearer <token>`.
pub fn bearer_token_hash(authorization: Option<&str>) -> (r: Option<String>)
    ensures
        match authorization {
            None => r is None,
            Some(h) => match bearer_token(h@) {
                None => r is None,
                Some(t) => r matches Some(x) && x@ == token_hash(t),
            },
        },
{
    match authorization {
        None => None,
        Some(header) => match strip_str_prefix(header, "Bearer ") {
            None => None,
            Some(token) => Some(hash_token(token.as_str())),
        },
    }
}

/// A header carries a bearer token exactly when it is `Bearer ` followed by
/// that token.
pub proof fn lemma_bearer_token_is_what_follows_the_scheme(header: Seq<char>, token: Seq<char>)
    ensures
        bearer_token(header) == Some(token) <==> header == "Bearer "@ + token,
{
    let p = "Bearer "@;
    if header == p + token {
        assert(header.take(p.len() as int) =~= p);
        assert(header.skip(p.len() as int) =~= token);
    }
    if bearer_token(header) == Some(token) {
        assert(header =~= header.take(p.len() as int) + header.skip(p.len() as int));
    }
}

/// A token issued by the server, presented as `Bearer <token>`, is looked
/// up under exactly the hash that was stored for it.
pub proof fn lemma_presented_token_matches_stored_hash(token: Seq<char>)
    ensures
        bearer_token("Bearer "@ + token) == Some(token),
        token_hash(bearer_token("Bearer "@ + token)->0) == token_hash(token),
{
    let h = "Bearer "@ + token;
    assert(h.take("Bearer "@.len() as int) =~= "Bearer "@);
    assert(h.skip("Bearer "@.len() as int) =~= token);
}

/// The `WWW-Authenticate` challenge that points a client at the protected
/// resource metadata of the server at `public_base_url`.
pub open spec fn resource_metadata_challenge(public_base_url: Seq<char>) -> Seq<char> {
    "Bearer resource_metadata=\""@ + public_base_url + "/.well-known/oauth-protected-resource\""@
}

/// The `WWW-Authenticate` value of a 401 answer: the challenge, when it may
/// stand in a header; `None` when the base URL makes it unfit, in which case
/// the 401 goes without it.
pub fn unauthorized(public_base_url: &str) -> (r: Option<String>)
    ensures
        r is Some <==> header_value_ok(resource_metadata_challenge(public_base_url@)),
        r matches Some(v) ==> v@ == resource_metadata_challenge(public_base_url@),
{
    let value = join3(
        "Bearer resource_metadata=\"",
        public_base_url,
        "/.well-known/oauth-protected-resource\"",
    );
    if header_value_accepts(value.as_str()) {
        Some(value)
    } else {
        None
    }
}

} // verus!
