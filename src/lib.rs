//! Login through an OpenID Connect provider with the OAuth 2.0 device
//! authorization grant: the request bodies, the reading of the provider's
//! replies, the decisions of the polling loop and the binding of the proven
//! identity to the local account. Network, display and sleeping are left to
//! the caller, which feeds each outcome back in.
pub mod text;
pub mod request;
pub mod reply;
pub mod claims;
pub mod config;
pub mod engine;
pub mod prompt;
