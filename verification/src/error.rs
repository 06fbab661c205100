use vstd::prelude::*;

verus! {

/// A fault of the persistence backend. The cause is opaque to this library and
/// is always handed upward unchanged.
#[derive(Debug)]
pub struct StorageError {
    pub message: String,
}

/// A subprovider whose endpoint configuration cannot be used.
#[derive(Debug, Clone, Copy, PartialEq, Eq, Structural)]
pub enum ConfigurationError {
    MissingIssuerUrl,
    MissingAuthorizationUrl,
    MissingJsonWebKeySet,
    InvalidIssuerUrl,
    InvalidAuthorizationUrl,
    InvalidTokenUrl,
    InvalidUserInfoUrl,
    InvalidJsonWebKeySet,
    InvalidDiscoveryUrl,
    /// What would enter the authorization URL is too long for one.
    TooLong,
}

/// Provider metadata that could not be fetched, or that was fetched and
/// cannot be used.
#[derive(Debug, Clone, Copy, PartialEq, Eq, Structural)]
pub enum DiscoveryError {
    FetchFailed,
    InvalidMetadata,
    InvalidJsonWebKeySet,
    /// What would enter the authorization URL is too long for one.
    TooLong,
}

#[derive(Debug)]
pub enum SignInError {
    SubproviderMissing,
    SubproviderNotFound(String),
    Storage(StorageError),
    Configuration(ConfigurationError),
    Discovery(DiscoveryError),
}

#[derive(Debug)]
pub enum SignOutError {
    SubproviderMissing,
    SubproviderNotFound(String),
    Storage(StorageError),
}

/// A provider was registered under an identifier that is already taken.
#[derive(Debug)]
pub enum RegistryError {
    DuplicateProvider(String),
}

} // verus!
