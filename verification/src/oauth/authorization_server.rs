//! Authorization server metadata (RFC 8414): where a client registers,
//! authorizes and gets tokens, and which flows it may use.
use vstd::prelude::*;
use crate::text::owned;
use super::{build_url, url_under};

verus! {

/// The metadata document served at
/// `/.well-known/oauth-authorization-server`.
pub struct AuthorizationServerMetadata {
    pub issuer: String,
    pub authorization_endpoint: String,
    pub token_endpoint: String,
    pub registration_endpoint: String,
    pub response_types_supported: Vec<String>,
    pub grant_types_supported: Vec<String>,
    pub code_challenge_methods_supported: Vec<String>,
    pub token_endpoint_auth_methods_supported: Vec<String>,
}

/// The views of a list of strings.
pub open spec fn string_views(v: Seq<String>) -> Seq<Seq<char>> {
    v.map_values(|s: String| s@)
}

/// The metadata for a server whose public base URL is `public_base_url`:
/// it is its own issuer; it offers the authorization-code flow with
/// refresh tokens, PKCE with `S256` only, and public clients only.
pub fn auth_server(public_base_url: &str) -> (r: AuthorizationServerMetadata)
    ensures
        r.issuer@ == public_base_url@,
        r.authorization_endpoint@ == url_under(public_base_url@, "authorize"@),
        r.token_endpoint@ == url_under(public_base_url@, "token"@),
        r.registration_endpoint@ == url_under(public_base_url@, "register"@),
        string_views(r.response_types_supported@) == seq!["code"@],
        string_views(r.grant_types_supported@) == seq!["authorization_code"@, "refresh_token"@],
        string_views(r.code_challenge_methods_supported@) == seq!["S256"@],
        string_views(r.token_endpoint_auth_methods_supported@) == seq!["none"@],
{
    let r = AuthorizationServerMetadata {
        issuer: owned(public_base_url),
        authorization_endpoint: build_url(public_base_url, "authorize"),
        token_endpoint: build_url(public_base_url, "token"),
        registration_endpoint: build_url(public_base_url, "register"),
        response_types_supported: vec![owned("code")],
        grant_types_supported: vec![owned("authorization_code"), owned("refresh_token")],
        code_challenge_methods_supported: vec![owned("S256")],
        token_endpoint_auth_methods_supported: vec![owned("none")],
    };
    proof {
        assert(string_views(r.response_types_supported@) =~= seq!["code"@]);
        assert(string_views(r.grant_types_supported@) =~= seq![
            "authorization_code"@,
            "refresh_token"@,
        ]);
        assert(string_views(r.code_challenge_methods_supported@) =~= seq!["S256"@]);
        assert(string_views(r.token_endpoint_auth_methods_supported@) =~= seq!["none"@]);
    }
    r
}

} // verus!
