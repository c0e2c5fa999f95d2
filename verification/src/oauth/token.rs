//! The token endpoint: exchanging an authorization code (with its PKCE
//! verifier) or a refresh token for a new access/refresh token pair. Tokens
//! are random; only their SHA-256 hashes are stored.
use vstd::prelude::*;
use vstd::utf8::encode_utf8;
use crate::codec::{
    base64_url_encode, base64_url_nopad, hex_encode, hex_lower, is_lower_hex_digit,
    lemma_base64_url_nopad_injective, lemma_hex_lower_shape,
};
use crate::crypto::{is_ascii_alphanumeric, random_alphanumeric, sha256, sha256_digest};
use crate::text::{join3, owned, same_text};

verus! {

/// How long an access token is valid, in seconds.
pub const ACCESS_TOKEN_TTL_SECONDS: i64 = 3600;

/// How long a refresh token is valid, in days.
pub const REFRESH_TOKEN_TTL_DAYS: i64 = 30;

/// How long an access token is valid, in nanoseconds.
pub const ACCESS_TOKEN_TTL_NANOS: i128 = 3_600_000_000_000;

/// How long a refresh token is valid, in nanoseconds.
pub const REFRESH_TOKEN_TTL_NANOS: i128 = 2_592_000_000_000_000;

/// The token lifetimes in nanoseconds are the lifetimes in seconds and days.
pub proof fn lemma_token_ttls()
    ensures
        ACCESS_TOKEN_TTL_NANOS == ACCESS_TOKEN_TTL_SECONDS * 1_000_000_000,
        REFRESH_TOKEN_TTL_NANOS == REFRESH_TOKEN_TTL_DAYS * 86400 * 1_000_000_000,
{
}

/// The number of characters of an access or refresh token.
pub const TOKEN_LEN: usize = 43;

/// The form posted to the token endpoint.
pub struct TokenRequest {
    pub grant_type: String,
    pub client_id: String,
    pub redirect_uri: Option<String>,
    pub code: Option<String>,
    pub code_verifier: Option<String>,
    pub refresh_token: Option<String>,
}

/// A successful token response.
pub struct TokenResponse {
    pub access_token: String,
    pub token_type: String,
    pub expires_in: i64,
    pub refresh_token: String,
}

/// An OAuth error response.
pub struct TokenError {
    pub error: String,
    pub error_description: String,
}

/// An authorization-code exchange with every parameter it needs.
pub struct AuthorizationCodeGrant {
    pub client_id: String,
    pub redirect_uri: String,
    pub code: String,
    pub code_verifier: String,
}

/// A refresh-token exchange.
pub struct RefreshTokenGrant {
    pub client_id: String,
    pub refresh_token: String,
}

/// A token request that names a supported grant and carries what it needs.
pub enum Grant {
    AuthorizationCode(AuthorizationCodeGrant),
    RefreshToken(RefreshTokenGrant),
}

/// An error response with the given code and description.
pub fn token_error(error: &str, description: &str) -> (r: TokenError)
    ensures
        r.error@ == error@,
        r.error_description@ == description@,
{
    TokenError { error: owned(error), error_description: owned(description) }
}

/// An `invalid_request` error with the given description.
pub fn invalid_request(msg: &str) -> (r: TokenError)
    ensures
        r.error@ == "invalid_request"@,
        r.error_description@ == msg@,
{
    token_error("invalid_request", msg)
}

/// An error with the given code and description, as views.
pub open spec fn is_error(e: TokenError, error: Seq<char>, description: Seq<char>) -> bool {
    e.error@ == error && e.error_description@ == description
}

/// Sorts a token request by grant type and checks that the parameters the
/// grant needs are present, in the order code, redirect URI, code verifier
/// for the authorization-code grant.
pub fn request_token(params: TokenRequest) -> (r: Result<Grant, TokenError>)
    ensures
        params.grant_type@ == "authorization_code"@ ==> match (
            params.code,
            params.redirect_uri,
            params.code_verifier,
        ) {
            (None, _, _) => r matches Err(e) && is_error(e, "invalid_request"@, "code is required"@),
            (Some(_), None, _) => r matches Err(e) && is_error(
                e,
                "invalid_request"@,
                "redirect_uri is required"@,
            ),
            (Some(_), Some(_), None) => r matches Err(e) && is_error(
                e,
                "invalid_request"@,
                "code_verifier is required"@,
            ),
            (Some(code), Some(redirect_uri), Some(verifier)) => r matches Ok(
                Grant::AuthorizationCode(g),
            ) && g.client_id == params.client_id && g.code == code && g.redirect_uri
                == redirect_uri && g.code_verifier == verifier,
        },
        params.grant_type@ == "refresh_token"@ ==> match params.refresh_token {
            None => r matches Err(e) && is_error(e, "invalid_request"@, "refresh_token is required"@),
            Some(t) => r matches Ok(Grant::RefreshToken(g)) && g.client_id == params.client_id
                && g.refresh_token == t,
        },
        params.grant_type@ != "authorization_code"@ && params.grant_type@ != "refresh_token"@ ==> (r matches Err(e)
            && is_error(
            e,
            "unsupported_grant_type"@,
            "grant_type: "@ + params.grant_type@ + " not supported"@,
        )),
{
    proof {
        reveal_strlit("authorization_code");
        reveal_strlit("refresh_token");
        assert("authorization_code"@.len() != "refresh_token"@.len());
    }
    if same_text(params.grant_type.as_str(), "authorization_code") {
        let code = match params.code {
            Some(code) => code,
            None => {
                return Err(invalid_request("code is required"));
            },
        };
        let redirect_uri = match params.redirect_uri {
            Some(redirect_uri) => redirect_uri,
            None => {
                return Err(invalid_request("redirect_uri is required"));
            },
        };
        let code_verifier = match params.code_verifier {
            Some(code_verifier) => code_verifier,
            None => {
                return Err(invalid_request("code_verifier is required"));
            },
        };
        Ok(
            Grant::AuthorizationCode(
                AuthorizationCodeGrant {
                    client_id: params.client_id,
                    redirect_uri,
                    code,
                    code_verifier,
                },
            ),
        )
    } else if same_text(params.grant_type.as_str(), "refresh_token") {
        let refresh_token = match params.refresh_token {
            Some(refresh_token) => refresh_token,
            None => {
                return Err(invalid_request("refresh_token is required"));
            },
        };
        Ok(Grant::RefreshToken(RefreshTokenGrant { client_id: params.client_id, refresh_token }))
    } else {
        let description = join3("grant_type: ", params.grant_type.as_str(), " not supported");
        Err(TokenError { error: owned("unsupported_grant_type"), error_description: description })
    }
}

/// A successful response carrying a token pair: a bearer access token that
/// lives an hour.
pub fn token_response(access_token: String, refresh_token: String) -> (r: TokenResponse)
    ensures
        r.access_token == access_token,
        r.refresh_token == refresh_token,
        r.token_type@ == "Bearer"@,
        r.expires_in == ACCESS_TOKEN_TTL_SECONDS,
{
    TokenResponse {
        access_token,
        token_type: owned("Bearer"),
        expires_in: ACCESS_TOKEN_TTL_SECONDS,
        refresh_token,
    }
}

/// The form in which a token is stored: the lowercase hex of the SHA-256
/// digest of its UTF-8 bytes.
pub open spec fn token_hash(token: Seq<char>) -> Seq<char> {
    hex_lower(sha256(encode_utf8(token)))
}

/// Hashes a token for storage or lookup. The hash is 64 lowercase hex
/// digits.
pub fn hash_token(token: &str) -> (r: String)
    ensures
        r@ == token_hash(token@),
        r@.len() == 64,
        forall|i: int| 0 <= i < r@.len() ==> is_lower_hex_digit(#[trigger] r@[i]),
{
    let digest = sha256_digest(token.as_bytes());
    proof {
        lemma_hex_lower_shape(digest@);
    }
    hex_encode(digest.as_slice())
}

/// The `S256` code challenge of a PKCE code verifier (RFC 7636): the
/// unpadded URL-safe base64 of the SHA-256 digest of its UTF-8 bytes.
pub open spec fn pkce_s256(verifier: Seq<char>) -> Seq<char> {
    base64_url_nopad(sha256(encode_utf8(verifier)))
}

/// The `S256` challenge is computed from the whole verifier: it is the
/// unpadded URL-safe base64 of the SHA-256 digest of all of the verifier's
/// UTF-8 bytes, and two verifiers share a challenge only when those digests
/// are the same.
pub proof fn lemma_pkce_challenge_binds_whole_verifier(u: Seq<char>, v: Seq<char>)
    ensures
        pkce_s256(v) == base64_url_nopad(sha256(encode_utf8(v))),
        pkce_s256(u) == pkce_s256(v) ==> sha256(encode_utf8(u)) == sha256(encode_utf8(v)),
{
    if pkce_s256(u) == pkce_s256(v) {
        lemma_base64_url_nopad_injective(sha256(encode_utf8(u)), sha256(encode_utf8(v)));
    }
}

/// Computes the `S256` code challenge of a code verifier.
pub fn pkce_challenge(code_verifier: &str) -> (r: String)
    ensures
        r@ == pkce_s256(code_verifier@),
{
    let digest = sha256_digest(code_verifier.as_bytes());
    base64_url_encode(digest.as_slice())
}

/// A freshly issued token pair, with what is stored of it.
pub struct IssuedTokens {
    pub client_id: String,
    pub access_token: String,
    pub refresh_token: String,
    pub access_token_hash: String,
    pub refresh_token_hash: String,
    /// Unix time, in nanoseconds, at which the access token expires.
    pub access_expires_at: i128,
    /// Unix time, in nanoseconds, at which the refresh token expires.
    pub refresh_expires_at: i128,
}

/// A random token: `TOKEN_LEN` ASCII letters and digits.
pub open spec fn is_random_token(t: Seq<char>) -> bool {
    t.len() == TOKEN_LEN && forall|i: int| 0 <= i < t.len() ==> is_ascii_alphanumeric(#[trigger] t[i])
}

/// A token pair issued to `client_id`: random tokens, the hashes of exactly
/// those tokens, an access token that expires an hour after `access_now`
/// and a refresh token that expires thirty days after `refresh_now` (the
/// two readings of the clock, Unix nanoseconds).
pub open spec fn issued_to(t: IssuedTokens, client_id: Seq<char>, access_now: int, refresh_now: int) -> bool {
    &&& t.client_id@ == client_id
    &&& is_random_token(t.access_token@)
    &&& is_random_token(t.refresh_token@)
    &&& t.access_token_hash@ == token_hash(t.access_token@)
    &&& t.refresh_token_hash@ == token_hash(t.refresh_token@)
    &&& t.access_expires_at == access_now + ACCESS_TOKEN_TTL_NANOS
    &&& t.refresh_expires_at == refresh_now + REFRESH_TOKEN_TTL_NANOS
}

/// What an issued pair is: two tokens of 43 ASCII letters and digits for
/// the client, stored as the lowercase hex SHA-256 of their UTF-8 bytes; the
/// access token lives one hour (3600 s) from the first clock reading and the
/// refresh token thirty days from the second.
pub proof fn lemma_issued_pair(t: IssuedTokens, client_id: Seq<char>, access_now: int, refresh_now: int)
    requires
        issued_to(t, client_id, access_now, refresh_now),
    ensures
        t.client_id@ == client_id,
        t.access_token@.len() == 43,
        t.refresh_token@.len() == 43,
        forall|i: int| 0 <= i < 43 ==> is_ascii_alphanumeric(#[trigger] t.access_token@[i]),
        forall|i: int| 0 <= i < 43 ==> is_ascii_alphanumeric(#[trigger] t.refresh_token@[i]),
        t.access_token_hash@ == hex_lower(sha256(encode_utf8(t.access_token@))),
        t.refresh_token_hash@ == hex_lower(sha256(encode_utf8(t.refresh_token@))),
        t.access_expires_at == access_now + 3600 * 1_000_000_000,
        t.refresh_expires_at == refresh_now + 30 * 86400 * 1_000_000_000,
{
}

/// The clock readings (Unix nanoseconds) from which a pair's expiry times
/// can be counted without overflow.
pub open spec fn clocks_in_range(access_now: int, refresh_now: int) -> bool {
    access_now + ACCESS_TOKEN_TTL_NANOS <= i128::MAX && refresh_now + REFRESH_TOKEN_TTL_NANOS
        <= i128::MAX
}

/// Draws a new token pair for a client. The access token's expiry is
/// counted from `access_now` and the refresh token's from `refresh_now`,
/// two readings of the clock in Unix nanoseconds.
pub fn issue_tokens(client_id: &str, access_now: i128, refresh_now: i128) -> (r: IssuedTokens)
    requires
        clocks_in_range(access_now as int, refresh_now as int),
    ensures
        issued_to(r, client_id@, access_now as int, refresh_now as int),
{
    let access_token = random_alphanumeric(TOKEN_LEN);
    let refresh_token = random_alphanumeric(TOKEN_LEN);
    let access_token_hash = hash_token(access_token.as_str());
    let refresh_token_hash = hash_token(refresh_token.as_str());
    IssuedTokens {
        client_id: owned(client_id),
        access_token,
        refresh_token,
        access_token_hash,
        refresh_token_hash,
        access_expires_at: access_now + ACCESS_TOKEN_TTL_NANOS,
        refresh_expires_at: refresh_now + REFRESH_TOKEN_TTL_NANOS,
    }
}

/// Finishes an authorization-code exchange once the code has been
/// consumed. `stored_challenge` is the code challenge stored with the code
/// when a matching, unused, unexpired code was found (and is now marked
/// used), `None` otherwise. Tokens are issued only when the verifier's
/// `S256` challenge equals the stored one.
pub fn authorization_code(
    grant: &AuthorizationCodeGrant,
    stored_challenge: Option<String>,
    access_now: i128,
    refresh_now: i128,
) -> (r: Result<IssuedTokens, TokenError>)
    requires
        clocks_in_range(access_now as int, refresh_now as int),
    ensures
        stored_challenge is None ==> (r matches Err(e) && is_error(
            e,
            "invalid_grant"@,
            "invalid or expired authorization code"@,
        )),
        stored_challenge matches Some(c) && c@ != pkce_s256(grant.code_verifier@) ==> (r matches Err(e)
            && is_error(e, "invalid_grant"@, "code_verifier does not match code_challenge"@)),
        r is Ok <==> (stored_challenge matches Some(c) && c@ == pkce_s256(grant.code_verifier@)),
        r matches Ok(t) ==> issued_to(t, grant.client_id@, access_now as int, refresh_now as int),
{
    let code_challenge = match stored_challenge {
        Some(code_challenge) => code_challenge,
        None => {
            return Err(token_error("invalid_grant", "invalid or expired authorization code"));
        },
    };
    let computed_challenge = pkce_challenge(grant.code_verifier.as_str());
    if computed_challenge != code_challenge {
        return Err(token_error("invalid_grant", "code_verifier does not match code_challenge"));
    }
    Ok(issue_tokens(grant.client_id.as_str(), access_now, refresh_now))
}

/// The stored hash of the refresh token a refresh request presents: the
/// one to revoke.
pub fn refresh_token_hash(grant: &RefreshTokenGrant) -> (r: String)
    ensures
        r@ == token_hash(grant.refresh_token@),
{
    hash_token(grant.refresh_token.as_str())
}

/// Finishes a refresh once the presented token has been looked up and
/// revoked. `revoked` is the number of live, unexpired tokens of the
/// client that had the presented refresh token's hash and are now revoked:
/// none means the request is refused; otherwise a new pair is issued, so
/// every refresh token is spent by its first use.
pub fn refresh(grant: &RefreshTokenGrant, revoked: u64, access_now: i128, refresh_now: i128) -> (r:
    Result<IssuedTokens, TokenError>)
    requires
        clocks_in_range(access_now as int, refresh_now as int),
    ensures
        revoked == 0 ==> (r matches Err(e) && is_error(
            e,
            "invalid_grant"@,
            "invalid, expired, or revoked refresh token"@,
        )),
        r is Ok <==> revoked > 0,
        r matches Ok(t) ==> issued_to(t, grant.client_id@, access_now as int, refresh_now as int),
{
    if revoked == 0 {
        return Err(token_error("invalid_grant", "invalid, expired, or revoked refresh token"));
    }
    Ok(issue_tokens(grant.client_id.as_str(), access_now, refresh_now))
}

/// A row of the token table: the hashes of an issued pair, their expiry
/// times (Unix nanoseconds), and whether the pair has been revoked.
pub struct StoredToken {
    pub client_id: String,
    pub access_token_hash: String,
    pub refresh_token_hash: String,
    pub access_expires_at: i128,
    pub refresh_expires_at: i128,
    pub revoked: bool,
}

/// The row stored for a freshly issued pair: not revoked.
pub open spec fn stored_row(t: IssuedTokens) -> StoredToken {
    StoredToken {
        client_id: t.client_id,
        access_token_hash: t.access_token_hash,
        refresh_token_hash: t.refresh_token_hash,
        access_expires_at: t.access_expires_at,
        refresh_expires_at: t.refresh_expires_at,
        revoked: false,
    }
}

/// A row that a refresh request presenting a token with hash `hash`, for
/// `client_id`, at time `now`, revokes: live (not revoked), of that client,
/// with that refresh hash, and with its refresh token not yet expired.
pub open spec fn refreshable(row: StoredToken, hash: Seq<char>, client_id: Seq<char>, now: int) -> bool {
    &&& !row.revoked
    &&& row.refresh_token_hash@ == hash
    &&& row.client_id@ == client_id
    &&& row.refresh_expires_at > now
}

/// The number of rows a refresh request revokes: the revoked count that
/// `refresh` is given.
pub open spec fn refreshable_count(
    rows: Seq<StoredToken>,
    hash: Seq<char>,
    client_id: Seq<char>,
    now: int,
) -> nat
    decreases rows.len(),
{
    if rows.len() == 0 {
        0
    } else {
        refreshable_count(rows.drop_last(), hash, client_id, now) + if refreshable(
            rows.last(),
            hash,
            client_id,
            now,
        ) {
            1nat
        } else {
            0nat
        }
    }
}

/// The table after a refresh request revokes the rows it matches.
pub open spec fn revoke_refreshable(
    rows: Seq<StoredToken>,
    hash: Seq<char>,
    client_id: Seq<char>,
    now: int,
) -> Seq<StoredToken> {
    rows.map_values(
        |row: StoredToken|
            if refreshable(row, hash, client_id, now) {
                StoredToken { revoked: true, ..row }
            } else {
                row
            },
    )
}

/// The table after a successful refresh: the presented token's rows
/// revoked, then the new pair stored.
pub open spec fn after_refresh(
    rows: Seq<StoredToken>,
    client_id: Seq<char>,
    presented: Seq<char>,
    issued: IssuedTokens,
    now: int,
) -> Seq<StoredToken> {
    revoke_refreshable(rows, token_hash(presented), client_id, now).push(stored_row(issued))
}

proof fn lemma_count_zero(rows: Seq<StoredToken>, hash: Seq<char>, client_id: Seq<char>, now: int)
    ensures
        refreshable_count(rows, hash, client_id, now) == 0 <==> forall|i: int|
            0 <= i < rows.len() ==> !refreshable(#[trigger] rows[i], hash, client_id, now),
    decreases rows.len(),
{
    if rows.len() > 0 {
        let init = rows.drop_last();
        lemma_count_zero(init, hash, client_id, now);
        if refreshable_count(rows, hash, client_id, now) == 0 {
            assert forall|i: int| 0 <= i < rows.len() implies !refreshable(
                #[trigger] rows[i],
                hash,
                client_id,
                now,
            ) by {
                if i < rows.len() - 1 {
                    assert(rows[i] == init[i]);
                }
            }
        }
        if forall|i: int| 0 <= i < rows.len() ==> !refreshable(#[trigger] rows[i], hash, client_id, now) {
            assert(!refreshable(rows[rows.len() - 1], hash, client_id, now));
            assert forall|i: int| 0 <= i < init.len() implies !refreshable(
                #[trigger] init[i],
                hash,
                client_id,
                now,
            ) by {
                assert(init[i] == rows[i]);
            }
        }
    }
}

/// Refresh tokens rotate. After a refresh that presented `presented` and
/// revoked at least one row at `now`, storing the new pair `issued` (its
/// expiries counted from `access_now` and `refresh_now`): a later refresh
/// (at `later`) presenting the spent token matches no row, so `refresh`
/// refuses it, and revoking leaves the table as it is; while the new
/// refresh token, before it expires, matches a row, so `refresh` accepts
/// it. This holds when the new refresh token's hash differs from the spent
/// one's.
pub proof fn lemma_spent_refresh_token_is_refused(
    rows: Seq<StoredToken>,
    client_id: Seq<char>,
    presented: Seq<char>,
    issued: IssuedTokens,
    now: int,
    access_now: int,
    refresh_now: int,
    later: int,
)
    requires
        refreshable_count(rows, token_hash(presented), client_id, now) > 0,
        issued_to(issued, client_id, access_now, refresh_now),
        now <= later,
        token_hash(issued.refresh_token@) != token_hash(presented),
    ensures
        refreshable_count(
            after_refresh(rows, client_id, presented, issued, now),
            token_hash(presented),
            client_id,
            later,
        ) == 0,
        revoke_refreshable(
            after_refresh(rows, client_id, presented, issued, now),
            token_hash(presented),
            client_id,
            later,
        ) == after_refresh(rows, client_id, presented, issued, now),
        later < refresh_now + REFRESH_TOKEN_TTL_NANOS ==> refreshable_count(
            after_refresh(rows, client_id, presented, issued, now),
            token_hash(issued.refresh_token@),
            client_id,
            later,
        ) > 0,
{
    let h = token_hash(presented);
    let revoked = revoke_refreshable(rows, h, client_id, now);
    let s1 = after_refresh(rows, client_id, presented, issued, now);
    assert forall|i: int| 0 <= i < s1.len() implies !refreshable(#[trigger] s1[i], h, client_id, later) by {
        if i < rows.len() {
            assert(s1[i] == revoked[i]);
            if !refreshable(rows[i], h, client_id, now) {
                assert(revoked[i] == rows[i]);
            }
        } else {
            assert(s1[i] == stored_row(issued));
        }
    }
    lemma_count_zero(s1, h, client_id, later);
    assert(revoke_refreshable(s1, h, client_id, later) =~= s1);
    if later < refresh_now + REFRESH_TOKEN_TTL_NANOS {
        let h1 = token_hash(issued.refresh_token@);
        assert(s1.last() == stored_row(issued));
        assert(refreshable(s1.last(), h1, client_id, later));
        assert(refreshable_count(s1, h1, client_id, later) >= 1);
    }
}

} // verus!
