//! Properties of the library that relate several of its operations.
use vstd::prelude::*;

use leptos_router::params::ParamsError;

use crate::authenticated::logout_url_of;
use crate::flow::{
    refresh_request_body_of, token_request_body_of, trim_trailing_slashes, init_step_ok, is_authenticated_with, is_unauthenticated_with, refresh_delay_millis,
    InitStep, StorageUpdate, REFRESH_TOKEN_SECONDS_BEFORE,
};
use crate::response::{
    CallbackResponse, ErrorResponse, SuccessCallbackResponse, SuccessLogoutResponse, SuccessTokenResponse,
};
use crate::storage::TokenStorage;
use crate::time::{at_or_after, delta_in_range, whole_seconds_between};
use crate::unauthenticated::{
    code_challenge_of, is_url_safe_base64, login_base_url, login_request_ok, verifier_length_ok,
    LoginRequest, VerifierUpdate,
};
use crate::utils::{query_separator, with_body_param, with_query_param};
use crate::{Auth, AuthError, AuthParameters, Challenge, IssuerMetadata, UnauthenticatedData};

verus! {

/// `s` ends with `suffix`.
pub open spec fn ends_with(s: Seq<char>, suffix: Seq<char>) -> bool {
    s.len() >= suffix.len() && s.subrange(s.len() - suffix.len(), s.len() as int) == suffix
}

/// Once a query parameter has been pushed, the string holds a query (`?`),
/// so every later parameter is joined with `&`.
pub proof fn law_query_param_opens_query(s: Seq<char>, key: Seq<char>, value: Seq<char>)
    ensures
        with_query_param(s, key, value).contains('?'),
{
    let r = with_query_param(s, key, value);
    if s.contains('?') {
        let i = choose|i: int| 0 <= i < s.len() && s[i] == '?';
        assert(r[i] == '?');
    } else {
        assert(r[s.len() as int] == '?');
    }
}

/// The first query parameter is introduced by `?` and the second by `&`.
pub proof fn law_two_query_params(
    s: Seq<char>,
    k1: Seq<char>,
    v1: Seq<char>,
    k2: Seq<char>,
    v2: Seq<char>,
)
    requires
        !s.contains('?'),
    ensures
        with_query_param(with_query_param(s, k1, v1), k2, v2) == s + seq!['?'] + k1 + seq!['='] + v1
            + seq!['&'] + k2 + seq!['='] + v2,
{
    let first = with_query_param(s, k1, v1);
    law_query_param_opens_query(s, k1, v1);
    assert(first == s + seq!['?'] + k1 + seq!['='] + v1);
    assert(query_separator(first) == seq!['&']);
}

/// The parameter pushed last stands at the end of the string.
pub proof fn law_query_param_at_end(s: Seq<char>, key: Seq<char>, value: Seq<char>)
    ensures
        ends_with(with_query_param(s, key, value), key + seq!['='] + value),
{
    let r = with_query_param(s, key, value);
    let suffix = key + seq!['='] + value;
    let prefix = s + query_separator(s);
    assert(r == prefix + suffix);
    assert(r.subrange(r.len() - suffix.len(), r.len() as int) =~= suffix);
}

/// The logout URL sends the ID token as hint, last, and sends the provider to
/// the post-logout redirect URI asking it to destroy the session.
pub proof fn law_logout_url_carries_hint_and_destroy_session(
    end_session_endpoint: Seq<char>,
    post_logout_redirect_uri: Seq<char>,
    id_token: Seq<char>,
)
    ensures
        ends_with(
            logout_url_of(end_session_endpoint, post_logout_redirect_uri, id_token),
            "id_token_hint"@ + seq!['='] + id_token,
        ),
        ends_with(
            with_query_param(post_logout_redirect_uri, "destroy_session"@, "true"@),
            "destroy_session"@ + seq!['='] + "true"@,
        ),
{
    let redirect = with_query_param(post_logout_redirect_uri, "destroy_session"@, "true"@);
    law_query_param_at_end(
        with_query_param(end_session_endpoint, "post_logout_redirect_uri"@, redirect),
        "id_token_hint"@,
        id_token,
    );
    law_query_param_at_end(post_logout_redirect_uri, "destroy_session"@, "true"@);
}

/// The code exchange sends the PKCE code verifier found in session storage,
/// as its last parameter.
pub proof fn law_code_exchange_sends_verifier(
    parameters: AuthParameters,
    response: SuccessCallbackResponse,
    verifier: Seq<char>,
)
    ensures
        ends_with(
            token_request_body_of(parameters, response, Some(verifier)),
            "code_verifier"@ + seq!['='] + verifier,
        ),
{
    let body = token_request_body_of(parameters, response, Some(verifier));
    let suffix = "code_verifier"@ + seq!['='] + verifier;
    let prefix = token_request_body_of(parameters, response, None) + seq!['&'];
    assert(body == prefix + suffix);
    assert(body.subrange(body.len() - suffix.len(), body.len() as int) =~= suffix);
}

/// A token that is valid at some time was valid at every earlier time.
pub proof fn law_validity_is_monotone(tokens: TokenStorage, earlier: (i64, u32), later: (i64, u32))
    requires
        at_or_after(later, earlier),
        tokens.valid_at(later),
    ensures
        tokens.valid_at(earlier),
        tokens.refresh_valid_at(later) ==> tokens.refresh_valid_at(earlier),
{
}

/// Tokens just stored from a response are valid at the time they were stored
/// exactly when the response's lifetime is not negative (a lifetime that does
/// not make a `TimeDelta` counts as zero).
pub proof fn law_fresh_tokens_valid(tokens: TokenStorage, response: SuccessTokenResponse, now: (i64, u32))
    requires
        tokens.stores_response(response, now),
    ensures
        tokens.valid_at(now) <==> (response.expires_in >= 0 || !delta_in_range(response.expires_in as int)),
        tokens.refresh_valid_at(now) <==> (match response.refresh_expires_in {
            Some(seconds) => seconds >= 0 || !delta_in_range(seconds as int),
            None => true,
        }),
{
}

/// A refresh token that came without an expiry stays valid.
pub proof fn law_refresh_token_without_expiry_stays_valid(tokens: TokenStorage, now: (i64, u32))
    requires
        tokens.refresh_expires_in is None,
    ensures
        tokens.refresh_valid_at(now),
{
}

/// The refresh is due `REFRESH_TOKEN_SECONDS_BEFORE` seconds before the access
/// token expires: the wait is the whole seconds until then, in milliseconds,
/// and there is no wait once that moment has come.
pub proof fn law_refresh_is_due_before_expiry(expiry: (i64, u32), now: (i64, u32))
    ensures
        refresh_delay_millis(expiry, now) >= 0,
        refresh_delay_millis(expiry, now) % 1000 == 0,
        refresh_delay_millis(expiry, now) == 0 <==> whole_seconds_between(expiry, now)
            <= REFRESH_TOKEN_SECONDS_BEFORE,
        refresh_delay_millis(expiry, now) > 0 ==> refresh_delay_millis(expiry, now) / 1000
            + REFRESH_TOKEN_SECONDS_BEFORE == whole_seconds_between(expiry, now),
{
    let s = whole_seconds_between(expiry, now) - REFRESH_TOKEN_SECONDS_BEFORE;
    if s > 0 {
        assert((s * 1000) % 1000 == 0 && (s * 1000) / 1000 == s) by (nonlinear_arith);
    }
}

/// The states of the authentication are exclusive: at most one of loading,
/// unauthenticated, authenticated and error holds, and being authenticated
/// at some time means being in the authenticated state.
pub proof fn law_auth_states_exclusive(auth: Auth, now: (i64, u32))
    ensures
        auth.authenticated_at(now) ==> auth is Authenticated,
        (auth is Loading) as int + (auth is Unauthenticated) as int + (auth is Authenticated) as int
            + (auth is Error) as int == 1,
{
}

/// A login callback never throws away stored tokens that are still valid:
/// the user is authenticated with them and no code is exchanged.
pub proof fn law_login_callback_keeps_valid_tokens(
    step: InitStep,
    parameters: AuthParameters,
    issuer: IssuerMetadata,
    response: SuccessCallbackResponse,
    tokens: TokenStorage,
    now: (i64, u32),
)
    requires
        init_step_ok(
            step,
            parameters,
            issuer,
            true,
            Ok(CallbackResponse::SuccessLogin(response)),
            Some(tokens),
            now,
        ),
        tokens.valid_at(now),
    ensures
        step matches InitStep::Done { storage, auth, .. } && storage == StorageUpdate::Keep
            && is_authenticated_with(auth, parameters, issuer, tokens),
{
}

/// Away from a login or logout callback (or when the callback query does not
/// parse), nothing is navigated to; stored tokens that are still valid
/// authenticate the user and are kept, stored tokens that are no longer
/// valid are removed and the user is unauthenticated, and with nothing
/// stored the user is unauthenticated and the storage left alone.
pub proof fn law_start_from_storage(
    step: InitStep,
    parameters: AuthParameters,
    issuer: IssuerMetadata,
    is_response_url: bool,
    query: Result<CallbackResponse, ParamsError>,
    stored: Option<TokenStorage>,
    now: (i64, u32),
)
    requires
        init_step_ok(step, parameters, issuer, is_response_url, query, stored, now),
        !is_response_url || query is Err,
    ensures
        step matches InitStep::Done { storage, auth, navigate } && navigate is None && (
        auth is Authenticated <==> (stored matches Some(t) && t.valid_at(now))) && (
        stored matches Some(t) && !t.valid_at(now) ==> storage == StorageUpdate::Clear),
        match step {
            InitStep::Done { storage, auth, navigate } => navigate is None && match stored {
                Some(t) => if t.valid_at(now) {
                    storage == StorageUpdate::Keep && match auth {
                        Auth::Authenticated(data) => data.parameters() == parameters
                            && data.issuer() == issuer && data.token_store() == t,
                        _ => false,
                    }
                } else {
                    storage == StorageUpdate::Clear && match auth {
                        Auth::Unauthenticated(data) => data.parameters() == parameters
                            && data.issuer() == issuer,
                        _ => false,
                    }
                },
                None => storage == StorageUpdate::Keep && match auth {
                    Auth::Unauthenticated(data) => data.parameters() == parameters && data.issuer()
                        == issuer,
                    _ => false,
                },
            },
            _ => false,
        },
{
}

/// A first visit (nothing in local storage) away from a callback shows the
/// user as logged out with the given parameters and issuer, navigates
/// nowhere and leaves the storage alone.
pub proof fn law_first_visit_is_unauthenticated(
    step: InitStep,
    parameters: AuthParameters,
    issuer: IssuerMetadata,
    is_response_url: bool,
    query: Result<CallbackResponse, ParamsError>,
    now: (i64, u32),
)
    requires
        init_step_ok(step, parameters, issuer, is_response_url, query, None, now),
        !is_response_url || query is Err,
    ensures
        match step {
            InitStep::Done { storage, auth, navigate } => navigate is None && storage
                == StorageUpdate::Keep && match auth {
                Auth::Unauthenticated(data) => data.parameters() == parameters && data.issuer()
                    == issuer,
                _ => false,
            },
            _ => false,
        },
{
}

/// A login callback without still-valid stored tokens exchanges exactly the
/// callback's code, after navigating to the redirect URI.
pub proof fn law_login_callback_exchanges_its_code(
    step: InitStep,
    parameters: AuthParameters,
    issuer: IssuerMetadata,
    response: SuccessCallbackResponse,
    stored: Option<TokenStorage>,
    now: (i64, u32),
)
    requires
        init_step_ok(
            step,
            parameters,
            issuer,
            true,
            Ok(CallbackResponse::SuccessLogin(response)),
            stored,
            now,
        ),
        !(stored matches Some(t) && t.valid_at(now)),
    ensures
        step matches InitStep::ExchangeCode { navigate, response: r } && navigate
            == parameters.redirect_uri && r == response,
{
}

/// A logout callback navigates to the post-logout redirect URI and leaves the
/// user unauthenticated; the stored tokens are removed exactly when the
/// callback asks to destroy the session.
pub proof fn law_logout_callback(
    step: InitStep,
    parameters: AuthParameters,
    issuer: IssuerMetadata,
    response: SuccessLogoutResponse,
    stored: Option<TokenStorage>,
    now: (i64, u32),
)
    requires
        init_step_ok(
            step,
            parameters,
            issuer,
            true,
            Ok(CallbackResponse::SuccessLogout(response)),
            stored,
            now,
        ),
    ensures
        match step {
            InitStep::Done { storage, auth, navigate } => navigate == Some(
                parameters.post_logout_redirect_uri,
            ) && (storage == StorageUpdate::Clear <==> response.destroy_session) && (storage
                == StorageUpdate::Keep <==> !response.destroy_session) && match auth {
                Auth::Unauthenticated(data) => data.parameters() == parameters && data.issuer()
                    == issuer,
                _ => false,
            },
            _ => false,
        },
{
}

/// An error the provider reports in its callback becomes the error state
/// with that very error; nothing is navigated to or stored.
pub proof fn law_provider_error_callback(
    step: InitStep,
    parameters: AuthParameters,
    issuer: IssuerMetadata,
    error: ErrorResponse,
    stored: Option<TokenStorage>,
    now: (i64, u32),
)
    requires
        init_step_ok(step, parameters, issuer, true, Ok(CallbackResponse::Error(error)), stored, now),
    ensures
        match step {
            InitStep::Done { storage, auth, navigate } => navigate is None && storage
                == StorageUpdate::Keep && match auth {
                Auth::Error(AuthError::Provider(e)) => e == error,
                _ => false,
            },
            _ => false,
        },
{
}

/// A logout callback that asks to destroy the session removes the stored
/// tokens and leaves the user unauthenticated.
pub proof fn law_logout_destroys_session(
    step: InitStep,
    parameters: AuthParameters,
    issuer: IssuerMetadata,
    stored: Option<TokenStorage>,
    now: (i64, u32),
)
    requires
        init_step_ok(
            step,
            parameters,
            issuer,
            true,
            Ok(CallbackResponse::SuccessLogout(SuccessLogoutResponse { destroy_session: true })),
            stored,
            now,
        ),
    ensures
        step matches InitStep::Done { storage, auth, .. } && storage == StorageUpdate::Clear
            && is_unauthenticated_with(auth, parameters, issuer),
{
}

/// What a login URL with a code challenge ends with.
pub open spec fn challenge_suffix(challenge: (Seq<char>, Seq<char>)) -> Seq<char> {
    seq!['&'] + "code_challenge"@ + seq!['='] + challenge.0 + seq!['&'] + "code_challenge_method"@
        + seq!['='] + challenge.1
}

/// The login URL before the code challenge already holds a query.
pub proof fn law_login_base_url_has_query(authorization_endpoint: Seq<char>, parameters: AuthParameters)
    ensures
        login_base_url(authorization_endpoint, parameters).contains('?'),
{
    let scope = match parameters.scope {
        Some(s) => s@,
        None => "openid"@,
    };
    let before_scope = with_query_param(
        with_query_param(
            with_query_param(authorization_endpoint, "response_type"@, "code"@),
            "client_id"@,
            parameters.client_id@,
        ),
        "redirect_uri"@,
        parameters.redirect_uri@,
    );
    let base = with_query_param(before_scope, "scope"@, scope);
    law_query_param_opens_query(before_scope, "scope"@, scope);
    match parameters.audience {
        Some(a) => law_query_param_opens_query(base, "audience"@, a@),
        None => {},
    }
}

/// A login with a code challenge ends with
/// `&code_challenge=<challenge>&code_challenge_method=<method>`; a verifier
/// it makes, and its S256 challenge, are URL-safe base64.
pub proof fn law_login_url_ends_with_challenge(
    data: UnauthenticatedData,
    stored_verifier: Option<String>,
    request: LoginRequest,
)
    requires
        data.parameters().challenge != Challenge::NoChallenge,
        login_request_ok(data, stored_verifier, request),
    ensures
        match stored_verifier {
            Some(v) => request.url@ == data.base_url() + challenge_suffix(
                code_challenge_of(data.parameters().challenge, v@),
            ),
            None => request.verifier matches VerifierUpdate::Store(v) && is_url_safe_base64(v@)
                && request.url@ == data.base_url() + challenge_suffix(
                code_challenge_of(data.parameters().challenge, v@),
            ),
        },
        ends_with(
            request.url@,
            challenge_suffix(
                code_challenge_of(
                    data.parameters().challenge,
                    match stored_verifier {
                        Some(v) => v@,
                        None => match request.verifier {
                            VerifierUpdate::Store(v) => v@,
                            _ => Seq::empty(),
                        },
                    },
                ),
            ),
        ),
{
    let base = data.base_url();
    law_login_base_url_has_query(
        data.issuer().configuration().authorization_endpoint@,
        data.parameters(),
    );
    let v = match stored_verifier {
        Some(v) => v@,
        None => match request.verifier {
            VerifierUpdate::Store(v) => v@,
            _ => Seq::empty(),
        },
    };
    let c = code_challenge_of(data.parameters().challenge, v);
    let inner = with_query_param(base, "code_challenge"@, c.0);
    law_query_param_opens_query(base, "code_challenge"@, c.0);
    let url = with_query_param(inner, "code_challenge_method"@, c.1);
    assert(url =~= base + challenge_suffix(c));
    let suffix = challenge_suffix(c);
    assert(url.subrange(url.len() - suffix.len(), url.len() as int) =~= suffix);
}

/// A verifier that a login stored is accepted by the next login, which then
/// sends the same code challenge and keeps the stored verifier.
pub proof fn law_login_reuses_stored_verifier(
    data: UnauthenticatedData,
    first: LoginRequest,
    verifier: String,
    second: LoginRequest,
)
    requires
        data.parameters().challenge != Challenge::NoChallenge,
        login_request_ok(data, None, first),
        first.verifier == VerifierUpdate::Store(verifier),
        login_request_ok(data, Some(verifier), second),
    ensures
        verifier_length_ok(verifier@),
        second.url@ == first.url@,
        second.verifier == VerifierUpdate::Keep,
{
}

/// `key=value`.
pub open spec fn pair(key: Seq<char>, value: Seq<char>) -> Seq<char> {
    key + seq!['='] + value
}

/// The character that opens or continues a query after `s`: `?` when `s`
/// holds no `?`, `&` otherwise.
pub open spec fn query_joiner(s: Seq<char>) -> char {
    if s.contains('?') {
        '&'
    } else {
        '?'
    }
}

/// A query parameter is appended whole: the string, `?` (no query yet) or
/// `&` (a query is open), the key, `=`, and the whole value.
pub proof fn law_query_param_shape(s: Seq<char>, key: Seq<char>, value: Seq<char>)
    ensures
        with_query_param(s, key, value) == s + seq![query_joiner(s)] + pair(key, value),
{
    assert(with_query_param(s, key, value) =~= s + seq![query_joiner(s)] + pair(key, value));
}

/// The login URL before the code challenge: the authorization endpoint, then
/// `response_type=code`, the client, the redirect URI, the scope (`openid`
/// when none is set) and, whenever an audience is set, whatever the scope,
/// `audience=<audience>` at the end.
pub proof fn law_login_base_url_shape(authorization_endpoint: Seq<char>, parameters: AuthParameters)
    ensures
        login_base_url(authorization_endpoint, parameters) == authorization_endpoint + seq![
            query_joiner(authorization_endpoint),
        ] + pair("response_type"@, "code"@) + seq!['&'] + pair("client_id"@, parameters.client_id@)
            + seq!['&'] + pair("redirect_uri"@, parameters.redirect_uri@) + seq!['&'] + pair(
            "scope"@,
            match parameters.scope {
                Some(s) => s@,
                None => "openid"@,
            },
        ) + match parameters.audience {
            Some(a) => seq!['&'] + pair("audience"@, a@),
            None => Seq::empty(),
        },
        parameters.audience matches Some(a) ==> ends_with(
            login_base_url(authorization_endpoint, parameters),
            pair("audience"@, a@),
        ),
{
    let e = authorization_endpoint;
    let scope = match parameters.scope {
        Some(s) => s@,
        None => "openid"@,
    };
    let u1 = with_query_param(e, "response_type"@, "code"@);
    law_query_param_shape(e, "response_type"@, "code"@);
    law_query_param_opens_query(e, "response_type"@, "code"@);
    let u2 = with_query_param(u1, "client_id"@, parameters.client_id@);
    law_query_param_shape(u1, "client_id"@, parameters.client_id@);
    law_query_param_opens_query(u1, "client_id"@, parameters.client_id@);
    let u3 = with_query_param(u2, "redirect_uri"@, parameters.redirect_uri@);
    law_query_param_shape(u2, "redirect_uri"@, parameters.redirect_uri@);
    law_query_param_opens_query(u2, "redirect_uri"@, parameters.redirect_uri@);
    let u4 = with_query_param(u3, "scope"@, scope);
    law_query_param_shape(u3, "scope"@, scope);
    law_query_param_opens_query(u3, "scope"@, scope);
    let head = e + seq![query_joiner(e)] + pair("response_type"@, "code"@) + seq!['&'] + pair(
        "client_id"@,
        parameters.client_id@,
    ) + seq!['&'] + pair("redirect_uri"@, parameters.redirect_uri@) + seq!['&'] + pair("scope"@, scope);
    assert(u4 =~= head);
    match parameters.audience {
        Some(a) => {
            law_query_param_shape(u4, "audience"@, a@);
            let r = with_query_param(u4, "audience"@, a@);
            assert(r =~= head + (seq!['&'] + pair("audience"@, a@)));
            law_query_param_at_end(u4, "audience"@, a@);
        },
        None => {
            assert(head =~= head + Seq::<char>::empty());
        },
    }
}

/// Without a code challenge, the login URL is the URL before the challenge
/// and the stored verifier is removed.
pub proof fn law_login_url_without_challenge(
    data: UnauthenticatedData,
    stored_verifier: Option<String>,
    request: LoginRequest,
)
    requires
        data.parameters().challenge == Challenge::NoChallenge,
        login_request_ok(data, stored_verifier, request),
    ensures
        request.url@ == login_base_url(
            data.issuer().configuration().authorization_endpoint@,
            data.parameters(),
        ),
        request.verifier == VerifierUpdate::Remove,
{
}

/// The body of the code exchange: the grant type, the client, the redirect
/// URI and always the whole authorization code, then the state where the
/// callback had one, then the code verifier where one was stored.
pub proof fn law_token_request_body_shape(
    parameters: AuthParameters,
    response: SuccessCallbackResponse,
    code_verifier: Option<Seq<char>>,
)
    ensures
        token_request_body_of(parameters, response, code_verifier) == "&grant_type=authorization_code"@
            + seq!['&'] + pair("client_id"@, parameters.client_id@) + seq!['&'] + pair(
            "redirect_uri"@,
            parameters.redirect_uri@,
        ) + seq!['&'] + pair("code"@, response.code@) + match response.session_state {
            Some(state) => seq!['&'] + pair("state"@, state@),
            None => Seq::empty(),
        } + match code_verifier {
            Some(v) => seq!['&'] + pair("code_verifier"@, v),
            None => Seq::empty(),
        },
{
    let head = "&grant_type=authorization_code"@ + seq!['&'] + pair("client_id"@, parameters.client_id@)
        + seq!['&'] + pair("redirect_uri"@, parameters.redirect_uri@) + seq!['&'] + pair(
        "code"@,
        response.code@,
    );
    let state_part = match response.session_state {
        Some(state) => seq!['&'] + pair("state"@, state@),
        None => Seq::<char>::empty(),
    };
    let verifier_part = match code_verifier {
        Some(v) => seq!['&'] + pair("code_verifier"@, v),
        None => Seq::<char>::empty(),
    };
    assert(token_request_body_of(parameters, response, code_verifier) =~= head + state_part
        + verifier_part);
}

/// The body of the refresh: the grant type, the client and the whole refresh
/// token.
pub proof fn law_refresh_request_body_shape(parameters: AuthParameters, refresh_token: Seq<char>)
    ensures
        refresh_request_body_of(parameters, refresh_token) == "&grant_type=refresh_token"@ + seq!['&']
            + pair("client_id"@, parameters.client_id@) + seq!['&'] + pair(
            "refresh_token"@,
            refresh_token,
        ),
        ends_with(refresh_request_body_of(parameters, refresh_token), pair("refresh_token"@, refresh_token)),
{
    let body = refresh_request_body_of(parameters, refresh_token);
    let suffix = pair("refresh_token"@, refresh_token);
    assert(body =~= "&grant_type=refresh_token"@ + seq!['&'] + pair("client_id"@, parameters.client_id@)
        + seq!['&'] + suffix);
    assert(body.subrange(body.len() - suffix.len(), body.len() as int) =~= suffix);
}

/// The logout URL: the end session endpoint, the post-logout redirect URI
/// with `destroy_session=true` added to it, and the whole ID token as hint.
pub proof fn law_logout_url_shape(
    end_session_endpoint: Seq<char>,
    post_logout_redirect_uri: Seq<char>,
    id_token: Seq<char>,
)
    ensures
        logout_url_of(end_session_endpoint, post_logout_redirect_uri, id_token) == end_session_endpoint
            + seq![query_joiner(end_session_endpoint)] + pair(
            "post_logout_redirect_uri"@,
            post_logout_redirect_uri + seq![query_joiner(post_logout_redirect_uri)] + pair(
                "destroy_session"@,
                "true"@,
            ),
        ) + seq!['&'] + pair("id_token_hint"@, id_token),
{
    let redirect = with_query_param(post_logout_redirect_uri, "destroy_session"@, "true"@);
    law_query_param_shape(post_logout_redirect_uri, "destroy_session"@, "true"@);
    let first = with_query_param(end_session_endpoint, "post_logout_redirect_uri"@, redirect);
    law_query_param_shape(end_session_endpoint, "post_logout_redirect_uri"@, redirect);
    law_query_param_opens_query(end_session_endpoint, "post_logout_redirect_uri"@, redirect);
    law_query_param_shape(first, "id_token_hint"@, id_token);
}

/// Tokens stored from a response hold the response's three tokens and
/// expire the response's lifetimes (zero where a lifetime does not make a
/// `TimeDelta`) after `now`, to the nanosecond.
pub proof fn law_stored_tokens_shape(tokens: TokenStorage, response: SuccessTokenResponse, now: (i64, u32))
    requires
        tokens.stores_response(response, now),
    ensures
        tokens.id_token == response.id_token,
        tokens.access_token == response.access_token,
        tokens.refresh_token == response.refresh_token,
        tokens.expires_in@.0 == now.0 + (if delta_in_range(response.expires_in as int) {
            response.expires_in as int
        } else {
            0
        }),
        tokens.expires_in@.1 == now.1,
        tokens.refresh_expires_in is Some <==> response.refresh_expires_in is Some,
        tokens.refresh_expires_in matches Some(e) ==> response.refresh_expires_in matches Some(seconds)
            && e@.0 == now.0 + (if delta_in_range(seconds as int) {
            seconds as int
        } else {
            0
        }) && e@.1 == now.1,
{
}

/// Trimming the trailing `/` characters leaves a prefix of the string that
/// does not end with `/`, and what was cut off is only `/` characters.
pub proof fn law_trim_trailing_slashes(s: Seq<char>)
    ensures
        trim_trailing_slashes(s).len() <= s.len(),
        trim_trailing_slashes(s) == s.subrange(0, trim_trailing_slashes(s).len() as int),
        !(trim_trailing_slashes(s).len() > 0 && trim_trailing_slashes(s).last() == '/'),
        forall|i: int|
            trim_trailing_slashes(s).len() <= i < s.len() ==> #[trigger] s[i] == '/',
    decreases s.len(),
{
    if s.len() > 0 && s.last() == '/' {
        law_trim_trailing_slashes(s.drop_last());
        let t = trim_trailing_slashes(s.drop_last());
        assert(s.drop_last().subrange(0, t.len() as int) =~= s.subrange(0, t.len() as int));
        assert forall|i: int| t.len() <= i < s.len() implies #[trigger] s[i] == '/' by {
            if i < s.len() - 1 {
                assert(s.drop_last()[i] == s[i]);
            }
        }
    } else {
        assert(s.subrange(0, s.len() as int) =~= s);
    }
}

/// The user counts as authenticated at `now` exactly in the authenticated
/// state whose access token expires at `now` or later; the refresh token
/// plays no part.
pub proof fn law_authenticated_means_access_token_unexpired(auth: Auth, now: (i64, u32))
    ensures
        auth.authenticated_at(now) <==> match auth {
            Auth::Authenticated(data) => data.token_store().expires_in@.0 > now.0 || (
            data.token_store().expires_in@.0 == now.0 && data.token_store().expires_in@.1 >= now.1),
            _ => false,
        },
{
}

/// The plain code challenge is the verifier itself with method `plain`; the
/// S256 one is the verifier's S256 challenge with method `S256`.
pub proof fn law_code_challenge_methods(verifier: Seq<char>)
    ensures
        code_challenge_of(Challenge::Plain, verifier) == (verifier, "plain"@),
        code_challenge_of(Challenge::S256, verifier) == (
            crate::unauthenticated::pkce_s256_challenge(verifier),
            "S256"@,
        ),
{
}

} // verus!
