//! A shared memory store for AI assistants: the rules of its tool
//! interface, of its OAuth 2.1 authorization server and of its request
//! checks, each stated and proved.
pub mod text;
pub mod validation;
pub mod crypto;
pub mod codec;
pub mod dates;
pub mod web;
pub mod oauth;
pub mod mcp;
pub mod routes;
