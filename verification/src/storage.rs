use vstd::prelude::*;
use crate::error::StorageError;
use crate::subprovider::{OauthSubprovider, OidcSubprovider};

verus! {

/// A persistence backend. Nothing is promised of an implementation: what it
/// returns is taken as it comes.
pub trait Storage: Send + Sync {
    /// The backend's stable identifier.
    fn id(&self) -> String;
}

/// The subproviders that a backend keeps for the OAuth 2.0 provider.
pub trait OauthStorage: Storage + Sync {
    fn oauth_subproviders(&self) -> Result<Vec<OauthSubprovider>, StorageError>;

    fn oauth_subprovider_by_id(&self, subprovider_id: &str) -> Result<
        Option<OauthSubprovider>,
        StorageError,
    >;
}

/// The subproviders that a backend keeps for the OpenID Connect provider.
pub trait OidcStorage: Send + Sync {
    fn oidc_subproviders(&self) -> Result<Vec<OidcSubprovider>, StorageError>;

    fn oidc_subprovider_by_id(&self, subprovider_id: &str) -> Result<
        Option<OidcSubprovider>,
        StorageError,
    >;
}

} // verus!
