//! The state of a user who has logged in.
use vstd::prelude::*;

use crate::storage::TokenStorage;
use crate::time::{in_time_range, Timestamp};
use crate::utils::{with_query_param, ParamBuilder};
use crate::{AuthParameters, IssuerMetadata};

verus! {

/// What the authenticated state holds: the parameters, the issuer and the
/// tokens.
#[derive(Clone, Debug)]
pub struct AuthenticatedData {
    pub(crate) parameters: AuthParameters,
    pub(crate) issuer: IssuerMetadata,
    pub(crate) token_store: TokenStorage,
}

/// The logout URL: the end session endpoint with the post-logout redirect
/// (asking to destroy the session) and the ID token as hint.
pub open spec fn logout_url_of(
    end_session_endpoint: Seq<char>,
    post_logout_redirect_uri: Seq<char>,
    id_token: Seq<char>,
) -> Seq<char> {
    with_query_param(
        with_query_param(
            end_session_endpoint,
            "post_logout_redirect_uri"@,
            with_query_param(post_logout_redirect_uri, "destroy_session"@, "true"@),
        ),
        "id_token_hint"@,
        id_token,
    )
}

impl AuthenticatedData {
    /// The authenticated state with these parameters, issuer and tokens.
    pub fn new(parameters: AuthParameters, issuer: IssuerMetadata, token_store: TokenStorage) -> (r: Self)
        ensures
            r.parameters() == parameters,
            r.issuer() == issuer,
            r.token_store() == token_store,
    {
        AuthenticatedData { parameters, issuer, token_store }
    }

    pub closed spec fn parameters(self) -> AuthParameters {
        self.parameters
    }

    pub closed spec fn issuer(self) -> IssuerMetadata {
        self.issuer
    }

    pub closed spec fn token_store(self) -> TokenStorage {
        self.token_store
    }

    /// Generates and returns the URL for initiating the logout process. This
    /// URL is used to redirect the user to the authentication provider's logout
    /// page.
    pub fn logout_url(&self) -> (r: String)
        ensures
            r@ == logout_url_of(
                self.issuer().configuration().end_session_endpoint@,
                self.parameters().post_logout_redirect_uri@,
                self.token_store().id_token@,
            ),
    {
        let redirect = self.parameters.post_logout_redirect_uri.clone().push_param_query(
            "destroy_session",
            "true",
        );
        self.issuer.get_configuration().end_session_endpoint.clone().push_param_query(
            "post_logout_redirect_uri",
            redirect.as_str(),
        ).push_param_query("id_token_hint", self.token_store.id_token.as_str())
    }

    /// Checks if the user is authenticated: whether the access token is still
    /// valid at `now`.
    pub fn is_authenticated_at(&self, now: &Timestamp) -> (r: bool)
        ensures
            r == self.token_store().valid_at(now@),
    {
        self.token_store.is_valid_at(now)
    }

    /// Checks if the user is authenticated: whether the access token is still
    /// valid at the current time.
    pub fn is_authenticated(&self) -> (r: bool)
        ensures
            exists|now: (i64, u32)| in_time_range(now) && r == self.token_store().valid_at(now),
    {
        self.token_store.is_valid()
    }

    /// Returns the ID token from the authentication response.
    pub fn id_token(&self) -> (r: String)
        ensures
            r == self.token_store().id_token,
    {
        self.token_store.id_token.clone()
    }

    /// Returns the access token from the authentication response.
    pub fn access_token(&self) -> (r: String)
        ensures
            r == self.token_store().access_token,
    {
        self.token_store.access_token.clone()
    }

    /// The parameters the authentication was initialized with.
    pub fn get_parameters(&self) -> (r: &AuthParameters)
        ensures
            *r == self.parameters(),
    {
        &self.parameters
    }

    /// The issuer's endpoints and keys.
    pub fn get_issuer(&self) -> (r: &IssuerMetadata)
        ensures
            *r == self.issuer(),
    {
        &self.issuer
    }

    /// The stored tokens.
    pub fn get_token_store(&self) -> (r: &TokenStorage)
        ensures
            *r == self.token_store(),
    {
        &self.token_store
    }

    /// A copy of the authenticated state.
    pub fn copied(&self) -> (r: Self)
        ensures
            r == *self,
    {
        AuthenticatedData {
            parameters: self.parameters.copied(),
            issuer: self.issuer.copied(),
            token_store: self.token_store.copied(),
        }
    }
}

} // verus!
