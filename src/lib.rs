//! Request authentication and authorization for the stump server: credential
//! checks, signed access and refresh tokens, prefixed API keys, the per-request
//! negotiation between credential schemes, and the permission guards applied to
//! an authenticated identity.

pub mod error;
pub mod text;
pub mod credentials;
pub mod user;
pub mod guard;
pub mod token;
pub mod api_key;
pub mod opds;
pub mod negotiate;
pub mod vault;
pub mod session;
