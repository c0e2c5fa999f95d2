use pando::oauth::authorization_server::auth_server;
use pando::oauth::authorize::{
    append_query, authorize_form, authorize_registered_client, authorize_submit, AuthorizeQuery,
    AuthorizeReply, AuthorizeSubmit, RegisteredClientReply,
};
use pando::oauth::build_url;
use pando::oauth::middleware::{bearer_token_hash, strip_str_prefix, unauthorized};
use pando::oauth::protected_resource::protected_resource;
use pando::oauth::register::{register_client, RegisterRequest};
use pando::oauth::token::{
    authorization_code, hash_token, invalid_request, pkce_challenge, refresh, refresh_token_hash,
    request_token, token_error, token_response, AuthorizationCodeGrant, Grant, RefreshTokenGrant,
    TokenRequest,
};

fn submit(passphrase: &str, method: &str, challenge: &str, state: Option<&str>) -> AuthorizeSubmit {
    AuthorizeSubmit {
        client_id: "client1".to_string(),
        redirect_uri: "https://app.example/cb".to_string(),
        code_challenge: challenge.to_string(),
        code_challenge_method: method.to_string(),
        state: state.map(|s| s.to_string()),
        passphrase: passphrase.to_string(),
    }
}

#[test]
fn urls_join_with_one_slash() {
    assert_eq!(build_url("https://x.example", "token"), "https://x.example/token");
    assert_eq!(build_url("https://x.example/", "token"), "https://x.example/token");
    assert_eq!(build_url("https://x.example///", "token"), "https://x.example/token");
    assert_eq!(build_url("", "mcp"), "/mcp");
}

#[test]
fn authorization_server_metadata() {
    let m = auth_server("https://pando.example/");
    assert_eq!(m.issuer, "https://pando.example/");
    assert_eq!(m.authorization_endpoint, "https://pando.example/authorize");
    assert_eq!(m.token_endpoint, "https://pando.example/token");
    assert_eq!(m.registration_endpoint, "https://pando.example/register");
    assert_eq!(m.response_types_supported, vec!["code".to_string()]);
    assert_eq!(
        m.grant_types_supported,
        vec!["authorization_code".to_string(), "refresh_token".to_string()]
    );
    assert_eq!(m.code_challenge_methods_supported, vec!["S256".to_string()]);
    assert_eq!(m.token_endpoint_auth_methods_supported, vec!["none".to_string()]);
}

#[test]
fn protected_resource_metadata_points_back_at_the_server() {
    let m = protected_resource("https://pando.example");
    assert_eq!(m.resource, "https://pando.example/mcp");
    assert_eq!(m.authorization_servers, ["https://pando.example".to_string()]);
    assert_eq!(m.bearer_methods_supported, vec!["header".to_string()]);
    let a = auth_server("https://pando.example");
    assert_eq!(a.issuer, m.authorization_servers[0]);
}

#[test]
fn authorize_form_accepts_only_code_with_s256() {
    let mut q = AuthorizeQuery {
        response_type: "code".to_string(),
        client_id: "c".to_string(),
        redirect_uri: "https://app.example/cb".to_string(),
        state: None,
        code_challenge: "x".to_string(),
        code_challenge_method: "S256".to_string(),
    };
    assert_eq!(authorize_form(&q), Ok(()));
    q.code_challenge_method = "plain".to_string();
    assert_eq!(authorize_form(&q), Err("unsupported code_challenge_method".to_string()));
    q.response_type = "token".to_string();
    assert_eq!(authorize_form(&q), Err("unsupported response_type".to_string()));
}

#[test]
fn queries_are_appended_with_the_right_separator() {
    assert_eq!(append_query("/authorize", &[("a", "b c")]), "/authorize?a=b+c");
    assert_eq!(append_query("https://x/cb?x=1", &[("code", "k")]), "https://x/cb?x=1&code=k");
}

#[test]
fn wrong_passphrase_goes_back_to_the_form() {
    match authorize_submit(&submit("guess", "S256", "abc", Some("s t")), "right") {
        AuthorizeReply::Redirect(url) => assert_eq!(
            url,
            "/authorize?response_type=code&client_id=client1&redirect_uri=https%3A%2F%2Fapp.example%2Fcb\
             &code_challenge=abc&code_challenge_method=S256&error=incorrect+passphrase&state=s+t"
        ),
        _ => panic!("expected a redirect"),
    }
}

#[test]
fn right_passphrase_checks_the_challenge() {
    match authorize_submit(&submit("right", "plain", "abc", None), "right") {
        AuthorizeReply::BadRequest(m) => assert_eq!(m, "unsupported code_challenge_method"),
        _ => panic!("expected a refusal"),
    }
    match authorize_submit(&submit("right", "S256", "", None), "right") {
        AuthorizeReply::BadRequest(m) => assert_eq!(m, "code_challenge must not be empty"),
        _ => panic!("expected a refusal"),
    }
    assert!(matches!(
        authorize_submit(&submit("right", "S256", "abc", None), "right"),
        AuthorizeReply::CheckClient
    ));
}

#[test]
fn registered_client_gets_a_code() {
    let body = submit("right", "S256", "chal", Some("xyz"));
    match authorize_registered_client(&body, false, 1_000) {
        RegisteredClientReply::BadRequest(m) => assert_eq!(m, "no such client/redirect_uri exists"),
        _ => panic!("expected a refusal"),
    }
    match authorize_registered_client(&body, true, 1_000) {
        RegisteredClientReply::StoreCode(issued, url) => {
            assert_eq!(issued.code.len(), 32);
            assert!(issued.code.chars().all(|c| c.is_ascii_alphanumeric()));
            assert_eq!(issued.client_id, "client1");
            assert_eq!(issued.redirect_uri, "https://app.example/cb");
            assert_eq!(issued.code_challenge, "chal");
            assert_eq!(issued.expires_at, 1_000 + 600_000_000_000);
            assert_eq!(url, format!("https://app.example/cb?code={}&state=xyz", issued.code));
        }
        _ => panic!("expected a code"),
    }
}

#[test]
fn registration_needs_a_redirect_uri() {
    let refused = register_client(RegisterRequest { redirect_uris: vec![], client_name: None });
    match refused {
        Err(e) => {
            assert_eq!(e.error, "invalid_client_metadata");
            assert_eq!(e.error_description, "redirect URIs cannot be empty");
        }
        Ok(_) => panic!("expected a refusal"),
    }
    let ok = register_client(RegisterRequest {
        redirect_uris: vec!["https://a/cb".to_string()],
        client_name: Some("Code".to_string()),
    });
    match ok {
        Ok(c) => {
            assert_eq!(c.client_id.len(), 32);
            assert!(c.client_id.chars().all(|ch| ch.is_ascii_alphanumeric()));
            assert_eq!(c.redirect_uris, vec!["https://a/cb".to_string()]);
            assert_eq!(c.client_name, Some("Code".to_string()));
        }
        Err(_) => panic!("expected a client"),
    }
}

fn token_request(grant_type: &str) -> TokenRequest {
    TokenRequest {
        grant_type: grant_type.to_string(),
        client_id: "c1".to_string(),
        redirect_uri: Some("https://a/cb".to_string()),
        code: Some("code1".to_string()),
        code_verifier: Some("v".to_string()),
        refresh_token: Some("r1".to_string()),
    }
}

fn error_of(r: Result<Grant, pando::oauth::token::TokenError>) -> (String, String) {
    match r {
        Err(e) => (e.error, e.error_description),
        Ok(_) => panic!("expected an error"),
    }
}

#[test]
fn token_requests_are_sorted_by_grant() {
    match request_token(token_request("authorization_code")) {
        Ok(Grant::AuthorizationCode(g)) => {
            assert_eq!(g.client_id, "c1");
            assert_eq!(g.code, "code1");
            assert_eq!(g.redirect_uri, "https://a/cb");
            assert_eq!(g.code_verifier, "v");
        }
        _ => panic!("expected an authorization-code grant"),
    }
    match request_token(token_request("refresh_token")) {
        Ok(Grant::RefreshToken(g)) => {
            assert_eq!(g.client_id, "c1");
            assert_eq!(g.refresh_token, "r1");
        }
        _ => panic!("expected a refresh grant"),
    }
    assert_eq!(
        error_of(request_token(token_request("password"))),
        ("unsupported_grant_type".to_string(), "grant_type: password not supported".to_string())
    );
}

#[test]
fn missing_token_parameters_are_named() {
    let mut r = token_request("authorization_code");
    r.code = None;
    r.redirect_uri = None;
    assert_eq!(
        error_of(request_token(r)),
        ("invalid_request".to_string(), "code is required".to_string())
    );
    let mut r = token_request("authorization_code");
    r.redirect_uri = None;
    assert_eq!(
        error_of(request_token(r)),
        ("invalid_request".to_string(), "redirect_uri is required".to_string())
    );
    let mut r = token_request("authorization_code");
    r.code_verifier = None;
    assert_eq!(
        error_of(request_token(r)),
        ("invalid_request".to_string(), "code_verifier is required".to_string())
    );
    let mut r = token_request("refresh_token");
    r.refresh_token = None;
    assert_eq!(
        error_of(request_token(r)),
        ("invalid_request".to_string(), "refresh_token is required".to_string())
    );
}

#[test]
fn error_helpers() {
    let e = invalid_request("x is required");
    assert_eq!((e.error.as_str(), e.error_description.as_str()), ("invalid_request", "x is required"));
    let e = token_error("invalid_grant", "nope");
    assert_eq!((e.error.as_str(), e.error_description.as_str()), ("invalid_grant", "nope"));
    let t = token_response("a".to_string(), "r".to_string());
    assert_eq!(t.token_type, "Bearer");
    assert_eq!(t.expires_in, 3600);
    assert_eq!((t.access_token.as_str(), t.refresh_token.as_str()), ("a", "r"));
}

#[test]
fn pkce_s256_matches_the_rfc_example() {
    assert_eq!(
        pkce_challenge("dBjftJeZ4CVP-mB92K27uhbUJU1p1r_wW1gFWFOEjXk"),
        "E9Melhoa2OwvFrEMTJguCHaoeK1t8URWbuGJSstw-cM"
    );
}

fn code_grant(verifier: &str) -> AuthorizationCodeGrant {
    AuthorizationCodeGrant {
        client_id: "c1".to_string(),
        redirect_uri: "https://a/cb".to_string(),
        code: "code1".to_string(),
        code_verifier: verifier.to_string(),
    }
}

#[test]
fn authorization_code_needs_the_matching_verifier() {
    let verifier = "dBjftJeZ4CVP-mB92K27uhbUJU1p1r_wW1gFWFOEjXk";
    let challenge = "E9Melhoa2OwvFrEMTJguCHaoeK1t8URWbuGJSstw-cM".to_string();
    match authorization_code(&code_grant(verifier), None, 0, 0) {
        Err(e) => assert_eq!(
            (e.error.as_str(), e.error_description.as_str()),
            ("invalid_grant", "invalid or expired authorization code")
        ),
        Ok(_) => panic!("expected a refusal"),
    }
    match authorization_code(&code_grant("wrong"), Some(challenge.clone()), 0, 0) {
        Err(e) => assert_eq!(
            (e.error.as_str(), e.error_description.as_str()),
            ("invalid_grant", "code_verifier does not match code_challenge")
        ),
        Ok(_) => panic!("expected a refusal"),
    }
    match authorization_code(&code_grant(verifier), Some(challenge), 100, 250) {
        Ok(t) => {
            assert_eq!(t.client_id, "c1");
            assert_eq!(t.access_token.len(), 43);
            assert_eq!(t.refresh_token.len(), 43);
            assert!(t.access_token.chars().all(|c| c.is_ascii_alphanumeric()));
            assert_eq!(t.access_token_hash, hash_token(&t.access_token));
            assert_eq!(t.refresh_token_hash, hash_token(&t.refresh_token));
            assert_eq!(t.access_expires_at, 100 + 3_600_000_000_000);
            assert_eq!(t.refresh_expires_at, 250 + 30 * 86_400 * 1_000_000_000);
        }
        Err(_) => panic!("expected tokens"),
    }
}

#[test]
fn refresh_spends_the_presented_token() {
    let grant = RefreshTokenGrant { client_id: "c1".to_string(), refresh_token: "abc".to_string() };
    assert_eq!(
        refresh_token_hash(&grant),
        "ba7816bf8f01cfea414140de5dae2223b00361a396177a9cb410ff61f20015ad"
    );
    match refresh(&grant, 0, 0, 0) {
        Err(e) => assert_eq!(
            (e.error.as_str(), e.error_description.as_str()),
            ("invalid_grant", "invalid, expired, or revoked refresh token")
        ),
        Ok(_) => panic!("expected a refusal"),
    }
    match refresh(&grant, 1, 10, 20) {
        Ok(t) => {
            assert_eq!(t.client_id, "c1");
            assert_eq!(t.access_expires_at, 10 + 3_600_000_000_000);
            assert_eq!(t.refresh_expires_at, 20 + 2_592_000_000_000_000);
            assert_eq!(t.refresh_token_hash, hash_token(&t.refresh_token));
        }
        Err(_) => panic!("expected tokens"),
    }
}

#[test]
fn stored_hash_is_hex_sha256() {
    let h = hash_token("abc");
    assert_eq!(h, "ba7816bf8f01cfea414140de5dae2223b00361a396177a9cb410ff61f20015ad");
    assert_ne!(h, "abc");
    assert_eq!(hash_token("").len(), 64);
}

#[test]
fn bearer_header_is_looked_up_by_hash() {
    assert_eq!(bearer_token_hash(None), None);
    assert_eq!(bearer_token_hash(Some("Basic abc")), None);
    assert_eq!(bearer_token_hash(Some("bearer abc")), None);
    assert_eq!(bearer_token_hash(Some("Bearer abc")), Some(hash_token("abc")));
    assert_eq!(bearer_token_hash(Some("Bearer ")), Some(hash_token("")));
    assert_eq!(strip_str_prefix("Bearer xyz", "Bearer "), Some("xyz".to_string()));
    assert_eq!(strip_str_prefix("Bear", "Bearer "), None);
}

#[test]
fn an_issued_token_passes_the_bearer_check() {
    match authorization_code(
        &code_grant("dBjftJeZ4CVP-mB92K27uhbUJU1p1r_wW1gFWFOEjXk"),
        Some("E9Melhoa2OwvFrEMTJguCHaoeK1t8URWbuGJSstw-cM".to_string()),
        0,
        0,
    ) {
        Ok(t) => {
            let header = format!("Bearer {}", t.access_token);
            assert_eq!(bearer_token_hash(Some(&header)), Some(t.access_token_hash));
        }
        Err(_) => panic!("expected tokens"),
    }
}

#[test]
fn unauthorized_points_at_the_resource_metadata() {
    assert_eq!(
        unauthorized("https://pando.example"),
        Some(
            "Bearer resource_metadata=\"https://pando.example/.well-known/oauth-protected-resource\""
                .to_string()
        )
    );
    assert_eq!(unauthorized("https://bad\nhost"), None);
}
