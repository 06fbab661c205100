//! Authentication orchestration: a registry of identity providers, each with
//! statically configured and storage-backed subproviders, and the decisions of
//! the OpenID Connect authorization-code sign-in flow.

pub mod error;
pub mod text;
pub mod subprovider;
pub mod storage;
pub mod oidc;
pub mod sign_in;
pub mod provider;
pub mod registry;
pub mod extract;
