//! OpenID Connect authentication state for web applications: the parameters
//! of the provider, the states of the authentication process, the URLs that
//! start a login or a logout, the token requests, and the decisions taken
//! when the provider redirects back or a token has to be refreshed.
#![allow(clippy::module_name_repetitions)]

use std::sync::Arc;

use jsonwebtoken::jwk::Jwk;
use vstd::prelude::*;

mod authenticated;
pub mod error;
pub mod flow;
pub mod laws;
pub mod response;
pub mod storage;
pub mod time;
mod unauthenticated;
pub mod utils;

pub use crate::authenticated::AuthenticatedData;
pub use crate::error::AuthError;
pub use crate::storage::TokenStorage;
pub use crate::time::Timestamp;
pub use crate::unauthenticated::{LoginRequest, UnauthenticatedData, VerifierUpdate};

use crate::error::arc_clone;
use crate::response::copy_opt_string;

verus! {

/// `jsonwebtoken::jwk::Jwk`, a JSON Web Key of the issuer, carried through
/// unchanged.
#[verifier::external_type_specification]
#[verifier::external_body]
pub struct ExJwk(Jwk);

/// Represents authentication parameters required for initializing the `Auth`
/// structure. These parameters include authentication and token endpoints,
/// client ID, and other related data.
#[derive(Debug, Clone, PartialEq, Eq, Hash)]
pub struct AuthParameters {
    pub issuer: String,
    pub client_id: String,
    pub redirect_uri: String,
    pub post_logout_redirect_uri: String,
    pub challenge: Challenge,
    pub scope: Option<String>,
    pub audience: Option<String>,
}

/// The PKCE code challenge method used for the login.
#[derive(Debug, Default, Clone, Copy, PartialEq, Eq, Structural, Hash)]
pub enum Challenge {
    #[default]
    S256,
    Plain,
    NoChallenge,
}

/// The endpoints that the issuer publishes in its discovery document.
#[derive(Debug, Clone, PartialEq, Eq, Hash)]
pub struct Configuration {
    pub issuer: String,
    pub authorization_endpoint: String,
    pub token_endpoint: String,
    pub end_session_endpoint: String,
    pub jwks_uri: String,
}

/// The JSON Web Key Set of the issuer.
#[derive(Debug, Clone, PartialEq, Eq, Hash)]
pub struct Keys {
    keys: Arc<Vec<Jwk>>,
}

/// What was fetched from the issuer: its endpoints and its keys.
#[derive(Clone, Debug)]
pub struct IssuerMetadata {
    configuration: Configuration,
    keys: Keys,
}

impl AuthParameters {
    /// A copy of the parameters.
    pub fn copied(&self) -> (r: Self)
        ensures
            r == *self,
    {
        AuthParameters {
            issuer: self.issuer.clone(),
            client_id: self.client_id.clone(),
            redirect_uri: self.redirect_uri.clone(),
            post_logout_redirect_uri: self.post_logout_redirect_uri.clone(),
            challenge: self.challenge,
            scope: copy_opt_string(&self.scope),
            audience: copy_opt_string(&self.audience),
        }
    }
}

impl Configuration {
    /// A copy of the endpoints.
    pub fn copied(&self) -> (r: Self)
        ensures
            r == *self,
    {
        Configuration {
            issuer: self.issuer.clone(),
            authorization_endpoint: self.authorization_endpoint.clone(),
            token_endpoint: self.token_endpoint.clone(),
            end_session_endpoint: self.end_session_endpoint.clone(),
            jwks_uri: self.jwks_uri.clone(),
        }
    }
}

impl Keys {
    /// The key set holding `keys`, in that order.
    pub fn new(keys: Vec<Jwk>) -> (r: Self)
        ensures
            r.keys() == keys@,
    {
        Keys { keys: Arc::new(keys) }
    }

    /// The keys, in the order of the key set.
    pub closed spec fn keys(self) -> Seq<Jwk> {
        self.keys@
    }

    /// The keys, in the order of the key set.
    pub fn as_slice(&self) -> (r: &[Jwk])
        ensures
            r@ == self.keys(),
    {
        self.keys.as_slice()
    }

    /// A copy of the key set.
    pub fn copied(&self) -> (r: Self)
        ensures
            r == *self,
    {
        Keys { keys: arc_clone(&self.keys) }
    }
}

impl IssuerMetadata {
    /// The metadata made of the issuer's endpoints and keys.
    pub fn new(configuration: Configuration, keys: Keys) -> (r: Self)
        ensures
            r.configuration() == configuration,
            r.keys() == keys,
    {
        IssuerMetadata { configuration, keys }
    }

    /// The issuer's endpoints.
    pub closed spec fn configuration(self) -> Configuration {
        self.configuration
    }

    /// The issuer's keys.
    pub closed spec fn keys(self) -> Keys {
        self.keys
    }

    /// The issuer's endpoints.
    pub fn get_configuration(&self) -> (r: &Configuration)
        ensures
            *r == self.configuration(),
    {
        &self.configuration
    }

    /// The issuer's keys.
    pub fn get_keys(&self) -> (r: &Keys)
        ensures
            *r == self.keys(),
    {
        &self.keys
    }

    /// A copy of the metadata.
    pub fn copied(&self) -> (r: Self)
        ensures
            r == *self,
    {
        IssuerMetadata { configuration: self.configuration.copied(), keys: self.keys.copied() }
    }
}

/// The different states of the main authentication process.
#[derive(Clone, Debug)]
pub enum Auth {
    Loading,
    Unauthenticated(UnauthenticatedData),
    Authenticated(AuthenticatedData),
    Error(AuthError),
}

impl Default for Auth {
    /// The authentication starts out loading.
    fn default() -> (r: Self)
        ensures
            r is Loading,
    {
        Auth::Loading
    }
}

impl Auth {
    /// Whether the state is authenticated with an access token that is still
    /// valid at `now`.
    pub open spec fn authenticated_at(self, now: (i64, u32)) -> bool {
        match self {
            Auth::Authenticated(data) => data.token_store().valid_at(now),
            _ => false,
        }
    }

    /// The data of the unauthenticated state, if this is that state.
    pub fn get_unauthenticated(&self) -> (r: Option<UnauthenticatedData>)
        ensures
            r == (match *self {
                Auth::Unauthenticated(data) => Some(data),
                _ => None,
            }),
    {
        match self {
            Auth::Unauthenticated(auth) => Some(auth.copied()),
            _ => None,
        }
    }

    /// The data of the authenticated state, if this is that state.
    pub fn authenticated(&self) -> (r: Option<AuthenticatedData>)
        ensures
            r == (match *self {
                Auth::Authenticated(data) => Some(data),
                _ => None,
            }),
    {
        match self {
            Auth::Authenticated(auth) => Some(auth.copied()),
            _ => None,
        }
    }

    /// Whether the authentication has finished loading.
    pub fn is_loaded(&self) -> (r: bool)
        ensures
            r == !(self is Loading),
    {
        !self.is_loading()
    }

    /// Whether the authentication is still loading.
    pub fn is_loading(&self) -> (r: bool)
        ensures
            r == (self is Loading),
    {
        match self {
            Auth::Loading => true,
            _ => false,
        }
    }

    /// The error of the error state, if this is that state.
    pub fn error(&self) -> (r: Option<AuthError>)
        ensures
            r == (match *self {
                Auth::Error(e) => Some(e),
                _ => None,
            }),
    {
        match self {
            Auth::Error(auth) => Some(auth.copied()),
            _ => None,
        }
    }

    /// Whether the user is authenticated with an access token that is still
    /// valid at `now`.
    pub fn is_authenticated_at(&self, now: &Timestamp) -> (r: bool)
        ensures
            r == self.authenticated_at(now@),
    {
        match self {
            Auth::Authenticated(auth) => auth.is_authenticated_at(now),
            _ => false,
        }
    }

    /// Whether the user is authenticated with an access token that is still
    /// valid at the current time.
    pub fn is_authenticated(&self) -> (r: bool)
        ensures
            r ==> self is Authenticated,
            exists|now: (i64, u32)| time::in_time_range(now) && r == self.authenticated_at(now),
    {
        match self {
            Auth::Authenticated(auth) => auth.is_authenticated(),
            _ => {
                assert(time::in_time_range((0i64, 0u32)) && !self.authenticated_at((0i64, 0u32)));
                false
            },
        }
    }
}

} // verus!
