//! Protected resource metadata (RFC 9728): which authorization server
//! guards the tool endpoint and how a token is presented.
use vstd::prelude::*;
use crate::text::owned;
use super::authorization_server::string_views;
use super::{build_url, url_under};

verus! {

/// The metadata document served at `/.well-known/oauth-protected-resource`.
pub struct ProtectedResourceMetadata {
    pub resource: String,
    pub authorization_servers: [String; 1],
    pub bearer_methods_supported: Vec<String>,
}

/// The metadata for the tool endpoint of a server whose public base URL is
/// `public_base_url`: the resource is `<base>/mcp`, this server itself is
/// its one authorization server, and tokens come in a header.
pub fn protected_resource(public_base_url: &str) -> (r: ProtectedResourceMetadata)
    ensures
        r.resource@ == url_under(public_base_url@, "mcp"@),
        r.authorization_servers[0]@ == public_base_url@,
        string_views(r.bearer_methods_supported@) == seq!["header"@],
{
    let r = ProtectedResourceMetadata {
        resource: build_url(public_base_url, "mcp"),
        authorization_servers: [owned(public_base_url)],
        bearer_methods_supported: vec![owned("header")],
    };
    proof {
        assert(string_views(r.bearer_methods_supported@) =~= seq!["header"@]);
    }
    r
}

} // verus!
