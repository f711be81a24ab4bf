//! The state of a user who has not logged in, and the login URL with its
//! PKCE code challenge.
use vstd::prelude::*;
use vstd::utf8::encode_utf8;

use oauth2::{PkceCodeChallenge, PkceCodeVerifier};

use crate::utils::{with_query_param, ParamBuilder};
use crate::{AuthParameters, Challenge, IssuerMetadata};

verus! {

/// The S256 code challenge of a PKCE code verifier: the URL-safe base64 (no
/// padding) of the SHA-256 digest of the verifier's bytes.
pub uninterp spec fn pkce_s256_challenge(verifier: Seq<char>) -> Seq<char>;

/// A character of the URL-safe base64 alphabet.
pub open spec fn is_url_safe_base64_char(c: char) -> bool {
    ('A' <= c && c <= 'Z') || ('a' <= c && c <= 'z') || ('0' <= c && c <= '9') || c == '-' || c == '_'
}

/// A string of URL-safe base64 characters (no padding).
pub open spec fn is_url_safe_base64(s: Seq<char>) -> bool {
    forall|i: int| 0 <= i < s.len() ==> is_url_safe_base64_char(#[trigger] s[i])
}

/// A code verifier that `oauth2` accepts: 43 to 128 bytes long.
pub open spec fn verifier_length_ok(verifier: Seq<char>) -> bool {
    43 <= encode_utf8(verifier).len() <= 128
}

/// The code challenge and its method name for `verifier`.
pub open spec fn code_challenge_of(method: Challenge, verifier: Seq<char>) -> (Seq<char>, Seq<char>) {
    match method {
        Challenge::Plain => (verifier, "plain"@),
        _ => (pkce_s256_challenge(verifier), "S256"@),
    }
}

/// The login URL before the code challenge: the authorization endpoint with
/// response type, client, redirect, scope (`openid` when none is set) and, if
/// set, the audience.
pub open spec fn login_base_url(
    authorization_endpoint: Seq<char>,
    parameters: AuthParameters,
) -> Seq<char> {
    let scope = match parameters.scope {
        Some(s) => s@,
        None => "openid"@,
    };
    let base = with_query_param(
        with_query_param(
            with_query_param(
                with_query_param(authorization_endpoint, "response_type"@, "code"@),
                "client_id"@,
                parameters.client_id@,
            ),
            "redirect_uri"@,
            parameters.redirect_uri@,
        ),
        "scope"@,
        scope,
    );
    match parameters.audience {
        Some(a) => with_query_param(base, "audience"@, a@),
        None => base,
    }
}

/// `url` with the code challenge and its method appended.
pub open spec fn with_code_challenge(url: Seq<char>, challenge: (Seq<char>, Seq<char>)) -> Seq<char> {
    with_query_param(
        with_query_param(url, "code_challenge"@, challenge.0),
        "code_challenge_method"@,
        challenge.1,
    )
}

/// `request` is the login of `data` given the verifier found in session
/// storage: with an S256 or plain challenge, a stored verifier is reused and
/// the storage kept; without one, a new verifier is to be stored and its
/// challenge is sent. Without a challenge the stored verifier is removed.
pub open spec fn login_request_ok(
    data: UnauthenticatedData,
    stored_verifier: Option<String>,
    request: LoginRequest,
) -> bool {
    let method = data.parameters().challenge;
    if method == Challenge::NoChallenge {
        request.url@ == data.base_url() && request.verifier == VerifierUpdate::Remove
    } else {
        match stored_verifier {
            Some(v) => request.url@ == with_code_challenge(data.base_url(), code_challenge_of(method, v@))
                && request.verifier == VerifierUpdate::Keep,
            None => request.verifier matches VerifierUpdate::Store(v) && request.url@
                == with_code_challenge(data.base_url(), code_challenge_of(method, v@)) && encode_utf8(
                v@,
            ).len() == 43 && v@.len() == 43 && is_url_safe_base64(v@),
        }
    }
}

/// What to do with the code verifier kept in session storage.
#[derive(Clone, Debug, PartialEq, Eq)]
pub enum VerifierUpdate {
    /// Leave it as it is.
    Keep,
    /// Store this new verifier.
    Store(String),
    /// Remove it.
    Remove,
}

/// A login URL together with what it asks of the stored code verifier.
#[derive(Clone, Debug, PartialEq, Eq)]
pub struct LoginRequest {
    pub url: String,
    pub verifier: VerifierUpdate,
}

/// What the unauthenticated state holds: the parameters and the issuer.
#[derive(Clone, Debug)]
pub struct UnauthenticatedData {
    pub(crate) parameters: AuthParameters,
    pub(crate) issuer: IssuerMetadata,
}

impl UnauthenticatedData {
    /// The unauthenticated state with these parameters and issuer.
    pub fn new(parameters: AuthParameters, issuer: IssuerMetadata) -> (r: Self)
        ensures
            r.parameters() == parameters,
            r.issuer() == issuer,
    {
        UnauthenticatedData { parameters, issuer }
    }

    pub closed spec fn parameters(self) -> AuthParameters {
        self.parameters
    }

    pub closed spec fn issuer(self) -> IssuerMetadata {
        self.issuer
    }

    /// The login URL before the code challenge.
    pub open spec fn base_url(self) -> Seq<char> {
        login_base_url(self.issuer().configuration().authorization_endpoint@, self.parameters())
    }

    /// Generates the URL for initiating the authentication process, given the
    /// code verifier found in session storage. This URL is used to redirect
    /// the user to the authentication provider's login page.
    ///
    /// With an S256 or plain challenge, a stored verifier is reused and the
    /// storage kept; without one, a random verifier is made and has to be
    /// stored. Without a challenge the stored verifier is removed.
    pub fn login_url(&self, stored_verifier: Option<String>) -> (r: LoginRequest)
        requires
            self.parameters().challenge != Challenge::NoChallenge ==> (stored_verifier matches Some(v)
                ==> verifier_length_ok(v@)),
        ensures
            login_request_ok(*self, stored_verifier, r),
    {
        let endpoint = self.issuer.get_configuration().authorization_endpoint.clone();
        let scope: &str = match &self.parameters.scope {
            Some(s) => s.as_str(),
            None => "openid",
        };
        let mut params = endpoint.push_param_query("response_type", "code").push_param_query(
            "client_id",
            self.parameters.client_id.as_str(),
        ).push_param_query("redirect_uri", self.parameters.redirect_uri.as_str()).push_param_query(
            "scope",
            scope,
        );
        proof {
            reveal_strlit("openid");
        }
        if let Some(audience) = &self.parameters.audience {
            params = params.push_param_query("audience", audience.as_str());
        }
        assert(params@ == self.base_url());
        match self.parameters.challenge {
            Challenge::NoChallenge => LoginRequest { url: params, verifier: VerifierUpdate::Remove },
            method => {
                match stored_verifier {
                    Some(v) => {
                        let (challenge, name) = if method == Challenge::S256 {
                            pkce_challenge_s256(v.as_str())
                        } else {
                            pkce_challenge_plain(v.as_str())
                        };
                        let url = params.push_param_query("code_challenge", challenge.as_str()).push_param_query(
                            "code_challenge_method",
                            name.as_str(),
                        );
                        LoginRequest { url, verifier: VerifierUpdate::Keep }
                    },
                    None => {
                        let (challenge, name, verifier) = if method == Challenge::S256 {
                            pkce_random_s256()
                        } else {
                            pkce_random_plain()
                        };
                        let url = params.push_param_query("code_challenge", challenge.as_str()).push_param_query(
                            "code_challenge_method",
                            name.as_str(),
                        );
                        LoginRequest { url, verifier: VerifierUpdate::Store(verifier) }
                    },
                }
            },
        }
    }

    /// The parameters the authentication was initialized with.
    pub fn get_parameters(&self) -> (r: &AuthParameters)
        ensures
            *r == self.parameters(),
    {
        &self.parameters
    }

    /// The issuer's endpoints and keys.
    pub fn get_issuer(&self) -> (r: &IssuerMetadata)
        ensures
            *r == self.issuer(),
    {
        &self.issuer
    }

    /// A copy of the unauthenticated state.
    pub fn copied(&self) -> (r: Self)
        ensures
            r == *self,
    {
        UnauthenticatedData { parameters: self.parameters.copied(), issuer: self.issuer.copied() }
    }
}

/// `PkceCodeChallenge::from_code_verifier_sha256` (with its `as_str` and
/// `method`): the S256 challenge of the verifier and the method name "S256".
/// The challenge is the URL-safe base64 (no padding) of a 32-byte SHA-256
/// digest, so 43 characters of that alphabet. The source asserts a verifier
/// of 43 to 128 bytes.
#[verifier::external_body]
fn pkce_challenge_s256(verifier: &str) -> (r: (String, String))
    requires
        verifier_length_ok(verifier@),
    ensures
        r.0@ == pkce_s256_challenge(verifier@),
        r.0@.len() == 43,
        is_url_safe_base64(r.0@),
        r.1@ == "S256"@,
{
    let c = PkceCodeChallenge::from_code_verifier_sha256(&PkceCodeVerifier::new(verifier.to_string()));
    (c.as_str().to_string(), c.method().as_str().to_string())
}

/// `PkceCodeChallenge::from_code_verifier_plain` (with its `as_str` and
/// `method`): the verifier itself and the method name "plain". The source
/// asserts a verifier of 43 to 128 bytes.
#[verifier::external_body]
fn pkce_challenge_plain(verifier: &str) -> (r: (String, String))
    requires
        verifier_length_ok(verifier@),
    ensures
        r.0@ == verifier@,
        r.1@ == "plain"@,
{
    let c = PkceCodeChallenge::from_code_verifier_plain(&PkceCodeVerifier::new(verifier.to_string()));
    (c.as_str().to_string(), c.method().as_str().to_string())
}

/// `PkceCodeChallenge::new_random_sha256`: a fresh verifier (the URL-safe
/// base64, no padding, of 32 random bytes, so 43 characters of that
/// alphabet), its S256 challenge (43 URL-safe base64 characters) and the
/// method name "S256". Nothing is said of which verifier comes out.
#[verifier::external_body]
fn pkce_random_s256() -> (r: (String, String, String))
    ensures
        r.0@ == pkce_s256_challenge(r.2@),
        r.0@.len() == 43,
        is_url_safe_base64(r.0@),
        r.1@ == "S256"@,
        encode_utf8(r.2@).len() == 43,
        r.2@.len() == 43,
        is_url_safe_base64(r.2@),
{
    let (c, v) = PkceCodeChallenge::new_random_sha256();
    (c.as_str().to_string(), c.method().as_str().to_string(), v.secret().to_string())
}

/// `PkceCodeChallenge::new_random_plain`: a fresh verifier (the URL-safe
/// base64, no padding, of 32 random bytes, so 43 characters of that
/// alphabet), the verifier itself as challenge and the method name "plain".
/// Nothing is said of which verifier comes out.
#[verifier::external_body]
fn pkce_random_plain() -> (r: (String, String, String))
    ensures
        r.0@ == r.2@,
        r.1@ == "plain"@,
        encode_utf8(r.2@).len() == 43,
        r.2@.len() == 43,
        is_url_safe_base64(r.2@),
{
    let (c, v) = PkceCodeChallenge::new_random_plain();
    (c.as_str().to_string(), c.method().as_str().to_string(), v.secret().to_string())
}

} // verus!
