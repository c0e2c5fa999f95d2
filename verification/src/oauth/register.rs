//! Dynamic client registration (RFC 7591): every client is public and gets
//! a random identifier.
use vstd::prelude::*;
use crate::crypto::{is_ascii_alphanumeric, random_alphanumeric};
use crate::text::owned;

verus! {

/// The number of characters of a client identifier.
pub const CLIENT_ID_LEN: usize = 32;

/// A registration request.
pub struct RegisterRequest {
    pub redirect_uris: Vec<String>,
    pub client_name: Option<String>,
}

/// A registered client, as the registration answer describes it.
pub struct RegisterSuccess {
    pub client_id: String,
    pub redirect_uris: Vec<String>,
    pub client_name: Option<String>,
}

/// A refused registration.
pub struct RegisterError {
    pub error: String,
    pub error_description: String,
}

/// Registers a client: refused without a redirect URI; otherwise the client
/// gets a random 32-character alphanumeric identifier and keeps its
/// redirect URIs and name as given. The success is what is stored and
/// answered.
pub fn register_client(body: RegisterRequest) -> (r: Result<RegisterSuccess, RegisterError>)
    ensures
        body.redirect_uris@.len() == 0 ==> (r matches Err(e) && e.error@
            == "invalid_client_metadata"@ && e.error_description@
            == "redirect URIs cannot be empty"@),
        body.redirect_uris@.len() > 0 ==> (r matches Ok(c) && {
            &&& c.client_id@.len() == CLIENT_ID_LEN
            &&& forall|i: int|
                0 <= i < c.client_id@.len() ==> is_ascii_alphanumeric(#[trigger] c.client_id@[i])
            &&& c.redirect_uris == body.redirect_uris
            &&& c.client_name == body.client_name
        }),
{
    if body.redirect_uris.len() == 0 {
        return Err(
            RegisterError {
                error: owned("invalid_client_metadata"),
                error_description: owned("redirect URIs cannot be empty"),
            },
        );
    }
    let client_id = random_alphanumeric(CLIENT_ID_LEN);
    Ok(
        RegisterSuccess {
            client_id,
            redirect_uris: body.redirect_uris,
            client_name: body.client_name,
        },
    )
}

} // verus!
