//! The decisions of the authentication process. The surrounding application
//! performs what they ask for (navigating, reading and writing storage,
//! sending requests, waiting) and hands the outcome back.
use vstd::prelude::*;
use vstd::string::{StrSliceExecFns, StringExecFns};

use leptos_router::params::ParamsError;

use crate::response::{CallbackResponse, SuccessCallbackResponse, TokenResponse};
use crate::storage::{response_fits, TokenStorage};
use crate::time::{whole_seconds_between, Timestamp, MAX_SECONDS, MIN_SECONDS, in_time_range};
use crate::utils::{with_body_param, ParamBuilder};
use crate::{Auth, AuthError, AuthParameters, AuthenticatedData, IssuerMetadata, UnauthenticatedData};

verus! {

/// How many seconds before the access token expires it is refreshed.
pub const REFRESH_TOKEN_SECONDS_BEFORE: i64 = 30i64;

/// What to do with the tokens kept in local storage.
#[derive(Clone, Debug, PartialEq, Eq)]
pub enum StorageUpdate {
    /// Leave them as they are.
    Keep,
    /// Store these tokens.
    Store(TokenStorage),
    /// Remove the stored tokens.
    Clear,
}

/// The outcome of looking at the page the application was loaded with.
#[derive(Clone, Debug)]
pub enum InitStep {
    /// The authentication state is known: navigate (replacing the current
    /// history entry) if asked, update the storage, and take on `auth`.
    Done { navigate: Option<String>, storage: StorageUpdate, auth: Auth },
    /// The provider sent an authorization code: navigate (replacing the
    /// current history entry), exchange the code for tokens and hand the
    /// result to `after_code_exchange`.
    ExchangeCode { navigate: String, response: SuccessCallbackResponse },
}

/// When and with which refresh token the access token is to be refreshed.
#[derive(Clone, Debug, PartialEq, Eq)]
pub struct RefreshPlan {
    pub delay_millis: u64,
    pub refresh_token: String,
}

/// `auth` is the authenticated state with these parameters, issuer and tokens.
pub open spec fn is_authenticated_with(
    auth: Auth,
    parameters: AuthParameters,
    issuer: IssuerMetadata,
    tokens: TokenStorage,
) -> bool {
    &&& auth matches Auth::Authenticated(data)
    &&& data.parameters() == parameters
    &&& data.issuer() == issuer
    &&& data.token_store() == tokens
}

/// `auth` is the unauthenticated state with these parameters and issuer.
pub open spec fn is_unauthenticated_with(
    auth: Auth,
    parameters: AuthParameters,
    issuer: IssuerMetadata,
) -> bool {
    &&& auth matches Auth::Unauthenticated(data)
    &&& data.parameters() == parameters
    &&& data.issuer() == issuer
}

/// `step` finishes with this navigation, storage update and an `auth` of
/// which `state` holds.
pub open spec fn is_done_with(
    step: InitStep,
    navigate: Option<String>,
    storage: StorageUpdate,
    state: spec_fn(Auth) -> bool,
) -> bool {
    &&& step matches InitStep::Done { navigate: n, storage: s, auth }
    &&& n == navigate
    &&& s == storage
    &&& state(auth)
}

/// The step taken for a page that is not a valid login or logout callback:
/// a stored token that is still valid is used, an expired one is removed.
pub open spec fn step_from_storage(
    step: InitStep,
    parameters: AuthParameters,
    issuer: IssuerMetadata,
    stored: Option<TokenStorage>,
    now: (i64, u32),
) -> bool {
    match stored {
        Some(tokens) => if tokens.valid_at(now) {
            is_done_with(
                step,
                None,
                StorageUpdate::Keep,
                |a: Auth| is_authenticated_with(a, parameters, issuer, tokens),
            )
        } else {
            is_done_with(
                step,
                None,
                StorageUpdate::Clear,
                |a: Auth| is_unauthenticated_with(a, parameters, issuer),
            )
        },
        None => is_done_with(
            step,
            None,
            StorageUpdate::Keep,
            |a: Auth| is_unauthenticated_with(a, parameters, issuer),
        ),
    }
}

/// The step taken when the application is loaded.
pub open spec fn init_step_ok(
    step: InitStep,
    parameters: AuthParameters,
    issuer: IssuerMetadata,
    is_response_url: bool,
    query: Result<CallbackResponse, ParamsError>,
    stored: Option<TokenStorage>,
    now: (i64, u32),
) -> bool {
    if !is_response_url {
        step_from_storage(step, parameters, issuer, stored, now)
    } else {
        match query {
            Ok(CallbackResponse::SuccessLogin(response)) => match stored {
                Some(tokens) => if tokens.valid_at(now) {
                    is_done_with(
                        step,
                        Some(parameters.redirect_uri),
                        StorageUpdate::Keep,
                        |a: Auth| is_authenticated_with(a, parameters, issuer, tokens),
                    )
                } else {
                    step == InitStep::ExchangeCode { navigate: parameters.redirect_uri, response }
                },
                None => step == InitStep::ExchangeCode {
                    navigate: parameters.redirect_uri,
                    response,
                },
            },
            Ok(CallbackResponse::SuccessLogout(response)) => is_done_with(
                step,
                Some(parameters.post_logout_redirect_uri),
                if response.destroy_session {
                    StorageUpdate::Clear
                } else {
                    StorageUpdate::Keep
                },
                |a: Auth| is_unauthenticated_with(a, parameters, issuer),
            ),
            Ok(CallbackResponse::Error(error)) => is_done_with(
                step,
                None,
                StorageUpdate::Keep,
                |a: Auth| a == Auth::Error(AuthError::Provider(error)),
            ),
            Err(_) => step_from_storage(step, parameters, issuer, stored, now),
        }
    }
}

/// `s` without the `/` characters at its end.
pub open spec fn trim_trailing_slashes(s: Seq<char>) -> Seq<char>
    decreases s.len(),
{
    if s.len() > 0 && s.last() == '/' {
        trim_trailing_slashes(s.drop_last())
    } else {
        s
    }
}

/// The body of the request that exchanges an authorization code for tokens.
pub open spec fn token_request_body_of(
    parameters: AuthParameters,
    response: SuccessCallbackResponse,
    code_verifier: Option<Seq<char>>,
) -> Seq<char> {
    let body = with_body_param(
        with_body_param(
            with_body_param(
                "&grant_type=authorization_code"@,
                "client_id"@,
                parameters.client_id@,
            ),
            "redirect_uri"@,
            parameters.redirect_uri@,
        ),
        "code"@,
        response.code@,
    );
    let body = match response.session_state {
        Some(state) => with_body_param(body, "state"@, state@),
        None => body,
    };
    match code_verifier {
        Some(v) => with_body_param(body, "code_verifier"@, v),
        None => body,
    }
}

/// The body of the request that trades a refresh token for new tokens.
pub open spec fn refresh_request_body_of(parameters: AuthParameters, refresh_token: Seq<char>) -> Seq<char> {
    with_body_param(
        with_body_param("&grant_type=refresh_token"@, "client_id"@, parameters.client_id@),
        "refresh_token"@,
        refresh_token,
    )
}

/// The milliseconds to wait before refreshing a token that expires at
/// `expiry`: until `REFRESH_TOKEN_SECONDS_BEFORE` seconds before the expiry,
/// counted in whole seconds, and no wait where that moment has passed.
pub open spec fn refresh_delay_millis(expiry: (i64, u32), now: (i64, u32)) -> int {
    let seconds = whole_seconds_between(expiry, now) - REFRESH_TOKEN_SECONDS_BEFORE;
    if seconds > 0 {
        seconds * 1000
    } else {
        0
    }
}

/// The URL of the issuer's OpenID discovery document.
pub fn discovery_url(issuer: &str) -> (r: String)
    ensures
        r@ == issuer@ + "/.well-known/openid-configuration"@,
{
    let mut url = String::from_str(issuer);
    url.append("/.well-known/openid-configuration");
    url
}

/// Whether the current location (a path) is the path of the redirect URI or
/// of the post-logout redirect URI, ignoring `/` characters at the end of the
/// location. The two paths are those of the parsed URIs (empty where a URI
/// does not parse).
pub fn is_authentication_response_path(location: &str, redirect_path: &str, logout_path: &str) -> (r: bool)
    ensures
        r == (redirect_path@ == trim_trailing_slashes(location@) || logout_path@
            == trim_trailing_slashes(location@)),
{
    let mut n = location.unicode_len();
    assert(location@.subrange(0, n as int) =~= location@);
    while n > 0 && location.get_char(n - 1) == '/'
        invariant
            n <= location@.len(),
            trim_trailing_slashes(location@) == trim_trailing_slashes(location@.subrange(0, n as int)),
        decreases n,
    {
        assert(location@.subrange(0, n as int).drop_last() =~= location@.subrange(0, n - 1));
        n = n - 1;
    }
    let trimmed = location.substring_char(0, n).to_owned();
    assert(trim_trailing_slashes(location@.subrange(0, n as int)) == location@.subrange(0, n as int));
    let redirect = redirect_path.to_owned();
    let logout = logout_path.to_owned();
    redirect == trimmed || logout == trimmed
}

/// Decides what to do when the application is loaded, from whether the
/// location is the redirect or post-logout path, the callback parameters in
/// the query, the tokens found in local storage and the current time.
pub fn init_auth_step(
    parameters: &AuthParameters,
    issuer: &IssuerMetadata,
    is_response_url: bool,
    query: Result<CallbackResponse, ParamsError>,
    stored: Option<TokenStorage>,
    now: &Timestamp,
) -> (r: InitStep)
    ensures
        init_step_ok(r, *parameters, *issuer, is_response_url, query, stored, now@),
{
    if is_response_url {
        match query {
            Ok(CallbackResponse::SuccessLogin(response)) => {
                if let Some(tokens) = stored {
                    if tokens.is_valid_at(now) {
                        return InitStep::Done {
                            navigate: Some(parameters.redirect_uri.clone()),
                            storage: StorageUpdate::Keep,
                            auth: Auth::Authenticated(
                                AuthenticatedData::new(parameters.copied(), issuer.copied(), tokens),
                            ),
                        };
                    }
                }
                InitStep::ExchangeCode { navigate: parameters.redirect_uri.clone(), response }
            },
            Ok(CallbackResponse::SuccessLogout(response)) => {
                let storage = if response.destroy_session {
                    StorageUpdate::Clear
                } else {
                    StorageUpdate::Keep
                };
                InitStep::Done {
                    navigate: Some(parameters.post_logout_redirect_uri.clone()),
                    storage,
                    auth: Auth::Unauthenticated(
                        UnauthenticatedData::new(parameters.copied(), issuer.copied()),
                    ),
                }
            },
            Ok(CallbackResponse::Error(error)) => InitStep::Done {
                navigate: None,
                storage: StorageUpdate::Keep,
                auth: Auth::Error(AuthError::Provider(error)),
            },
            Err(_) => step_from_stored_tokens(parameters, issuer, stored, now),
        }
    } else {
        step_from_stored_tokens(parameters, issuer, stored, now)
    }
}

/// The step for a page that is not a login or logout callback.
fn step_from_stored_tokens(
    parameters: &AuthParameters,
    issuer: &IssuerMetadata,
    stored: Option<TokenStorage>,
    now: &Timestamp,
) -> (r: InitStep)
    ensures
        step_from_storage(r, *parameters, *issuer, stored, now@),
{
    match stored {
        Some(tokens) => {
            if tokens.is_valid_at(now) {
                InitStep::Done {
                    navigate: None,
                    storage: StorageUpdate::Keep,
                    auth: Auth::Authenticated(
                        AuthenticatedData::new(parameters.copied(), issuer.copied(), tokens),
                    ),
                }
            } else {
                InitStep::Done {
                    navigate: None,
                    storage: StorageUpdate::Clear,
                    auth: Auth::Unauthenticated(
                        UnauthenticatedData::new(parameters.copied(), issuer.copied()),
                    ),
                }
            }
        },
        None => InitStep::Done {
            navigate: None,
            storage: StorageUpdate::Keep,
            auth: Auth::Unauthenticated(UnauthenticatedData::new(parameters.copied(), issuer.copied())),
        },
    }
}

/// The state after the authorization code was exchanged: authenticated with
/// the new tokens, which are stored, or the error of the exchange.
pub fn after_code_exchange(
    parameters: AuthParameters,
    issuer: IssuerMetadata,
    result: Result<TokenStorage, AuthError>,
) -> (r: (Auth, StorageUpdate))
    ensures
        match result {
            Ok(tokens) => is_authenticated_with(r.0, parameters, issuer, tokens) && r.1
                == StorageUpdate::Store(tokens),
            Err(e) => r.0 == Auth::Error(e) && r.1 == StorageUpdate::Keep,
        },
{
    match result {
        Ok(tokens) => {
            let stored = tokens.copied();
            (Auth::Authenticated(AuthenticatedData::new(parameters, issuer, tokens)), StorageUpdate::Store(stored))
        },
        Err(e) => (Auth::Error(e), StorageUpdate::Keep),
    }
}

/// The state after a refresh: authenticated with the new tokens, which are
/// stored, or, where the refresh failed, unauthenticated with the stored
/// tokens removed.
pub fn after_refresh(
    parameters: AuthParameters,
    issuer: IssuerMetadata,
    result: Result<TokenStorage, AuthError>,
) -> (r: (Auth, StorageUpdate))
    ensures
        match result {
            Ok(tokens) => is_authenticated_with(r.0, parameters, issuer, tokens) && r.1
                == StorageUpdate::Store(tokens),
            Err(_) => is_unauthenticated_with(r.0, parameters, issuer) && r.1 == StorageUpdate::Clear,
        },
{
    match result {
        Ok(tokens) => {
            let stored = tokens.copied();
            (Auth::Authenticated(AuthenticatedData::new(parameters, issuer, tokens)), StorageUpdate::Store(stored))
        },
        Err(_) => (Auth::Unauthenticated(UnauthenticatedData::new(parameters, issuer)), StorageUpdate::Clear),
    }
}

/// The body of the request that exchanges an authorization code for tokens,
/// with the PKCE code verifier found in session storage, if any.
pub fn token_request_body(
    parameters: &AuthParameters,
    response: &SuccessCallbackResponse,
    code_verifier: Option<&str>,
) -> (r: String)
    ensures
        r@ == token_request_body_of(
            *parameters,
            *response,
            match code_verifier {
                Some(v) => Some(v@),
                None => None,
            },
        ),
{
    let mut body = String::from_str("&grant_type=authorization_code").push_param_body(
        "client_id",
        parameters.client_id.as_str(),
    ).push_param_body("redirect_uri", parameters.redirect_uri.as_str()).push_param_body(
        "code",
        response.code.as_str(),
    );
    if let Some(state) = &response.session_state {
        body = body.push_param_body("state", state.as_str());
    }
    if let Some(verifier) = code_verifier {
        body = body.push_param_body("code_verifier", verifier);
    }
    body
}

/// The body of the request that trades a refresh token for new tokens.
pub fn refresh_request_body(parameters: &AuthParameters, refresh_token: &str) -> (r: String)
    ensures
        r@ == refresh_request_body_of(*parameters, refresh_token@),
{
    String::from_str("&grant_type=refresh_token").push_param_body(
        "client_id",
        parameters.client_id.as_str(),
    ).push_param_body("refresh_token", refresh_token)
}

/// The tokens of a token endpoint response, with their expiries counted from
/// `now`, or the provider's error.
pub fn token_response_result_at(response: TokenResponse, now: &Timestamp) -> (r: Result<
    TokenStorage,
    AuthError,
>)
    requires
        response matches TokenResponse::Success(success) ==> response_fits(success, now@),
    ensures
        match response {
            TokenResponse::Success(success) => r matches Ok(tokens) && tokens.stores_response(
                success,
                now@,
            ),
            TokenResponse::Error(error) => r == Err::<TokenStorage, AuthError>(
                AuthError::Provider(error),
            ),
        },
{
    match response {
        TokenResponse::Success(success) => Ok(TokenStorage::from_token_response_at(success, now)),
        TokenResponse::Error(error) => Err(AuthError::Provider(error)),
    }
}

/// The tokens of a token endpoint response, with their expiries counted from
/// the current time, or the provider's error; `None` where an expiry is not
/// representable (adding the lifetime to the current `NaiveDateTime` would
/// overflow).
pub fn token_response_result(response: TokenResponse) -> (r: Option<Result<TokenStorage, AuthError>>)
    ensures
        match response {
            TokenResponse::Success(success) => match r {
                Some(Ok(tokens)) => exists|now: (i64, u32)|
                    in_time_range(now) && #[trigger] tokens.stores_response(success, now),
                Some(Err(_)) => false,
                None => exists|now: (i64, u32)|
                    in_time_range(now) && !#[trigger] response_fits(success, now),
            },
            TokenResponse::Error(error) => r == Some(
                Err::<TokenStorage, AuthError>(AuthError::Provider(error)),
            ),
        },
{
    match response {
        TokenResponse::Success(success) => match TokenStorage::from_token_response(success) {
            Some(tokens) => Some(Ok(tokens)),
            None => None,
        },
        TokenResponse::Error(error) => Some(Err(AuthError::Provider(error))),
    }
}

/// The whole seconds between two representable times stay within the span of
/// the representable range (plus one for the nanoseconds).
proof fn lemma_whole_seconds_bounded(later: (i64, u32), earlier: (i64, u32))
    requires
        in_time_range(later),
        in_time_range(earlier),
    ensures
        whole_seconds_between(later, earlier) <= MAX_SECONDS - MIN_SECONDS + 1,
{
    let n = (later.0 - earlier.0) * 1_000_000_000 + (later.1 - earlier.1);
    let d = later.0 - earlier.0;
    assert(n <= (d + 1) * 1_000_000_000) by (nonlinear_arith)
        requires
            n == d * 1_000_000_000 + (later.1 - earlier.1),
            later.1 < 1_000_000_000,
            earlier.1 >= 0,
    ;
    if n >= 0 {
        assert(n / 1_000_000_000 <= d + 1) by (nonlinear_arith)
            requires
                n <= (d + 1) * 1_000_000_000,
                n >= 0,
        ;
    }
}

/// When and with which refresh token an authenticated state is to refresh
/// its access token, judged at `now`; `None` for the other states.
pub fn refresh_plan_at(auth: &Auth, now: &Timestamp) -> (r: Option<RefreshPlan>)
    ensures
        match *auth {
            Auth::Authenticated(data) => r matches Some(plan) && plan.refresh_token
                == data.token_store().refresh_token && plan.delay_millis == refresh_delay_millis(
                data.token_store().expires_in@,
                now@,
            ),
            _ => r is None,
        },
{
    match auth {
        Auth::Authenticated(data) => {
            let tokens = data.get_token_store();
            let seconds = tokens.expires_in.seconds_since(now);
            proof {
                use_type_invariant(&tokens.expires_in);
                use_type_invariant(now);
                lemma_whole_seconds_bounded(tokens.expires_in@, now@);
            }
            let delay_millis: u64 = if seconds > REFRESH_TOKEN_SECONDS_BEFORE {
                ((seconds - REFRESH_TOKEN_SECONDS_BEFORE) as u64) * 1000
            } else {
                0
            };
            Some(RefreshPlan { delay_millis, refresh_token: tokens.refresh_token.clone() })
        },
        _ => None,
    }
}

/// Where the reload button navigates: the given path, or the root.
pub fn reload_path(path: Option<String>) -> (r: String)
    ensures
        match path {
            Some(p) => r == p,
            None => r@ == "/"@,
        },
{
    match path {
        Some(p) => p,
        None => String::from_str("/"),
    }
}

/// Whether the authentication has to be loaded again: the state was set back
/// to loading while no load is pending.
pub fn needs_reload(auth: &Auth, pending: bool) -> (r: bool)
    ensures
        r == (*auth is Loading && !pending),
{
    auth.is_loading() && !pending
}

} // verus!
