//! Which hosts the tool endpoint answers to.
use vstd::prelude::*;
use crate::oauth::authorization_server::string_views;
use crate::text::owned;
use crate::web::{parse_uri_authority, uri_authority};

verus! {

/// The hosts the tool endpoint answers to: the loopback names, and the
/// authority of the public base URL when it has one.
pub open spec fn allowed_hosts(public_base_url: Seq<char>) -> Seq<Seq<char>> {
    let local = seq!["localhost"@, "127.0.0.1"@, "::1"@];
    match uri_authority(public_base_url) {
        Some(authority) => local.push(authority),
        None => local,
    }
}

/// The loopback names are always allowed, and the public base URL's
/// authority, port included, is allowed whenever the URL has one: it is the
/// one host after them.
pub proof fn lemma_public_authority_allowed(public_base_url: Seq<char>)
    ensures
        allowed_hosts(public_base_url).len() >= 3,
        allowed_hosts(public_base_url)[0] == "localhost"@,
        allowed_hosts(public_base_url)[1] == "127.0.0.1"@,
        allowed_hosts(public_base_url)[2] == "::1"@,
        uri_authority(public_base_url) matches Some(a) ==> allowed_hosts(public_base_url).len() == 4
            && allowed_hosts(public_base_url)[3] == a,
        uri_authority(public_base_url) is None ==> allowed_hosts(public_base_url).len() == 3,
{
}

/// Lists the hosts the tool endpoint answers to.
pub fn allowed_mcp_hosts(public_base_url: &str) -> (r: Vec<String>)
    ensures
        string_views(r@) == allowed_hosts(public_base_url@),
{
    let mut hosts = vec![owned("localhost"), owned("127.0.0.1"), owned("::1")];
    match parse_uri_authority(public_base_url) {
        Some(authority) => {
            hosts.push(authority);
        },
        None => {},
    }
    proof {
        assert(string_views(hosts@) =~= allowed_hosts(public_base_url@));
    }
    hosts
}

/// The status of a readiness probe: 200 when the database answered, 503
/// when it did not.
pub fn readiness_status(database_answered: bool) -> (r: u16)
    ensures
        database_answered ==> r == 200,
        !database_answered ==> r == 503,
{
    if database_answered {
        200
    } else {
        503
    }
}

} // verus!
