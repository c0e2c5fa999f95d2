//! HTTP-level facts: which strings may stand in a header value, and the
//! authority of a URI, each from the `http` crate that axum re-exports.
use vstd::prelude::*;
use vstd::utf8::encode_utf8;

verus! {

/// A byte that a header value may hold: a visible ASCII character, a
/// space, a tab, or any byte from 128 up.
pub open spec fn header_byte_ok(b: u8) -> bool {
    (b >= 32 && b != 127) || b == 9
}

/// A string whose UTF-8 bytes may all stand in a header value.
pub open spec fn header_value_ok(s: Seq<char>) -> bool {
    forall|i: int| 0 <= i < encode_utf8(s).len() ==> header_byte_ok(#[trigger] encode_utf8(s)[i])
}

/// Calls `http::HeaderValue::from_str`. Trusted to succeed exactly when
/// every byte of the string passes the check its source makes on each
/// byte.
#[verifier::external_body]
pub fn header_value_accepts(s: &str) -> (r: bool)
    ensures
        r == header_value_ok(s@),
{
    axum::http::HeaderValue::from_str(s).is_ok()
}

/// The authority (host and port) of `s` read as a URI, if it parses and has
/// one.
pub uninterp spec fn uri_authority(s: Seq<char>) -> Option<Seq<char>>;

/// Parses `s` as an `http::Uri` and takes its authority as a string.
/// Trusted to return the named result `uri_authority`; the URI grammar is
/// left to the name.
#[verifier::external_body]
pub fn parse_uri_authority(s: &str) -> (r: Option<String>)
    ensures
        r is Some <==> uri_authority(s@) is Some,
        r matches Some(a) ==> uri_authority(s@) == Some(a@),
{
    match s.parse::<axum::http::Uri>() {
        Ok(uri) => match uri.authority() {
            Some(authority) => Some(authority.as_str().to_string()),
            None => None,
        },
        Err(_) => None,
    }
}

} // verus!
