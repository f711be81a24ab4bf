use leptos_oidc::flow::{
    after_code_exchange, after_refresh, discovery_url, init_auth_step, is_authentication_response_path,
    needs_reload, refresh_plan_at, refresh_request_body, reload_path, token_request_body,
    token_response_result, token_response_result_at, InitStep, StorageUpdate,
};
use leptos_oidc::response::{
    callback_from_params, CallbackParamsError, CallbackResponse, ErrorResponse, SuccessCallbackResponse,
    SuccessLogoutResponse, SuccessTokenResponse, TokenResponse,
};
use leptos_oidc::time::MAX_DELTA_SECONDS;
use leptos_oidc::{
    Auth, AuthError, AuthParameters, AuthenticatedData, Challenge, Configuration, IssuerMetadata, Keys,
    Timestamp, TokenStorage, UnauthenticatedData,
};
use leptos_router::params::ParamsError;

fn ts(secs: i64, nanos: u32) -> Timestamp {
    Timestamp::new(secs, nanos).unwrap()
}

fn parameters() -> AuthParameters {
    AuthParameters {
        issuer: "https://id.example".to_string(),
        client_id: "client".to_string(),
        redirect_uri: "https://app.example/profile".to_string(),
        post_logout_redirect_uri: "https://app.example/logout".to_string(),
        challenge: Challenge::S256,
        scope: None,
        audience: None,
    }
}

fn issuer() -> IssuerMetadata {
    IssuerMetadata::new(
        Configuration {
            issuer: "https://id.example".to_string(),
            authorization_endpoint: "https://id.example/auth".to_string(),
            token_endpoint: "https://id.example/token".to_string(),
            end_session_endpoint: "https://id.example/logout".to_string(),
            jwks_uri: "https://id.example/certs".to_string(),
        },
        Keys::new(vec![]),
    )
}

fn success(expires_in: i64) -> SuccessTokenResponse {
    SuccessTokenResponse {
        id_token: "id".to_string(),
        access_token: "access".to_string(),
        expires_in,
        refresh_token: "refresh".to_string(),
        refresh_expires_in: Some(600),
    }
}

/// Tokens that expire at second 1300.
fn tokens() -> TokenStorage {
    TokenStorage::from_token_response_at(success(300), &ts(1_000, 0))
}

fn login_query() -> Result<CallbackResponse, ParamsError> {
    Ok(CallbackResponse::SuccessLogin(SuccessCallbackResponse {
        code: "the-code".to_string(),
        session_state: None,
    }))
}

fn done(step: InitStep) -> (Option<String>, StorageUpdate, Auth) {
    match step {
        InitStep::Done { navigate, storage, auth } => (navigate, storage, auth),
        other => panic!("expected a finished step, got {:?}", other),
    }
}

#[test]
fn discovery_url_appends_well_known_path() {
    assert_eq!(
        discovery_url("https://id.example/realms/r"),
        "https://id.example/realms/r/.well-known/openid-configuration"
    );
}

#[test]
fn response_path_ignores_trailing_slashes() {
    assert!(is_authentication_response_path("/profile/", "/profile", "/logout"));
    assert!(is_authentication_response_path("/profile//", "/profile", "/logout"));
    assert!(is_authentication_response_path("/logout", "/profile", "/logout"));
    assert!(!is_authentication_response_path("/other", "/profile", "/logout"));
    assert!(is_authentication_response_path("/", "", "/logout"));
    assert!(!is_authentication_response_path("/profile", "/profile/", "/logout"));
}

#[test]
fn login_callback_with_valid_stored_tokens_keeps_them() {
    let step = init_auth_step(&parameters(), &issuer(), true, login_query(), Some(tokens()), &ts(1_200, 0));
    let (navigate, storage, auth) = done(step);
    assert_eq!(navigate.as_deref(), Some("https://app.example/profile"));
    assert_eq!(storage, StorageUpdate::Keep);
    assert_eq!(auth.authenticated().unwrap().get_token_store(), &tokens());
}

#[test]
fn login_callback_without_valid_tokens_exchanges_the_code() {
    for stored in [None, Some(tokens())] {
        let step = init_auth_step(&parameters(), &issuer(), true, login_query(), stored, &ts(1_301, 0));
        match step {
            InitStep::ExchangeCode { navigate, response } => {
                assert_eq!(navigate, "https://app.example/profile");
                assert_eq!(response.code, "the-code");
            }
            other => panic!("expected a code exchange, got {:?}", other),
        }
    }
}

#[test]
fn logout_callback_destroying_the_session_clears_storage() {
    let query = Ok(CallbackResponse::SuccessLogout(SuccessLogoutResponse { destroy_session: true }));
    let (navigate, storage, auth) =
        done(init_auth_step(&parameters(), &issuer(), true, query, Some(tokens()), &ts(0, 0)));
    assert_eq!(navigate.as_deref(), Some("https://app.example/logout"));
    assert_eq!(storage, StorageUpdate::Clear);
    assert!(auth.get_unauthenticated().is_some());
}

#[test]
fn logout_callback_keeping_the_session_keeps_storage() {
    let query = Ok(CallbackResponse::SuccessLogout(SuccessLogoutResponse { destroy_session: false }));
    let (_, storage, auth) = done(init_auth_step(&parameters(), &issuer(), true, query, None, &ts(0, 0)));
    assert_eq!(storage, StorageUpdate::Keep);
    assert!(auth.get_unauthenticated().is_some());
}

#[test]
fn provider_error_callback_gives_error_state() {
    let error = ErrorResponse { error: "foo".to_string(), error_description: Some("bla".to_string()) };
    let query = Ok(CallbackResponse::Error(error.clone()));
    let (navigate, storage, auth) =
        done(init_auth_step(&parameters(), &issuer(), true, query, Some(tokens()), &ts(0, 0)));
    assert_eq!(navigate, None);
    assert_eq!(storage, StorageUpdate::Keep);
    match auth.error() {
        Some(AuthError::Provider(e)) => assert_eq!(e, error),
        other => panic!("expected a provider error, got {:?}", other),
    }
}

#[test]
fn other_pages_use_stored_tokens() {
    // not on a callback path: a login query is ignored
    let (navigate, storage, auth) =
        done(init_auth_step(&parameters(), &issuer(), false, login_query(), Some(tokens()), &ts(1_300, 0)));
    assert_eq!(navigate, None);
    assert_eq!(storage, StorageUpdate::Keep);
    assert!(auth.is_authenticated_at(&ts(1_300, 0)));
    // expired tokens are removed
    let (_, storage, auth) =
        done(init_auth_step(&parameters(), &issuer(), false, login_query(), Some(tokens()), &ts(1_301, 0)));
    assert_eq!(storage, StorageUpdate::Clear);
    assert!(auth.get_unauthenticated().is_some());
    // nothing stored
    let query = Err(ParamsError::MissingParam("code".to_string()));
    let (_, storage, auth) = done(init_auth_step(&parameters(), &issuer(), true, query, None, &ts(0, 0)));
    assert_eq!(storage, StorageUpdate::Keep);
    assert!(auth.get_unauthenticated().is_some());
}

#[test]
fn code_exchange_outcomes() {
    let (auth, storage) = after_code_exchange(parameters(), issuer(), Ok(tokens()));
    assert_eq!(storage, StorageUpdate::Store(tokens()));
    assert_eq!(auth.authenticated().unwrap().access_token(), "access");
    let (auth, storage) = after_code_exchange(
        parameters(),
        issuer(),
        Err(AuthError::Params(ParamsError::MissingParam("code".to_string()))),
    );
    assert_eq!(storage, StorageUpdate::Keep);
    assert!(matches!(auth.error(), Some(AuthError::Params(ParamsError::MissingParam(p))) if p == "code"));
    let (auth, _) = after_code_exchange(parameters(), issuer(), Err(AuthError::Storage));
    assert!(matches!(auth, Auth::Error(AuthError::Storage)));
}

#[test]
fn refresh_outcomes() {
    let (auth, storage) = after_refresh(parameters(), issuer(), Ok(tokens()));
    assert_eq!(storage, StorageUpdate::Store(tokens()));
    assert!(auth.authenticated().is_some());
    let (auth, storage) = after_refresh(parameters(), issuer(), Err(AuthError::Storage));
    assert_eq!(storage, StorageUpdate::Clear);
    assert!(auth.get_unauthenticated().is_some());
}

#[test]
fn token_request_bodies() {
    let callback = SuccessCallbackResponse { code: "c0de".to_string(), session_state: Some("st".to_string()) };
    assert_eq!(
        token_request_body(&parameters(), &callback, Some("ver")),
        "&grant_type=authorization_code&client_id=client&redirect_uri=https://app.example/profile&code=c0de&state=st&code_verifier=ver"
    );
    let callback = SuccessCallbackResponse { code: "c0de".to_string(), session_state: None };
    assert_eq!(
        token_request_body(&parameters(), &callback, None),
        "&grant_type=authorization_code&client_id=client&redirect_uri=https://app.example/profile&code=c0de"
    );
    assert_eq!(
        refresh_request_body(&parameters(), "rt"),
        "&grant_type=refresh_token&client_id=client&refresh_token=rt"
    );
}

#[test]
fn token_responses_become_tokens_or_provider_errors() {
    let r = token_response_result_at(TokenResponse::Success(success(60)), &ts(10, 0)).unwrap();
    assert_eq!(r.expires_in, ts(70, 0));
    assert_eq!(r.refresh_expires_in, Some(ts(610, 0)));
    let error = ErrorResponse { error: "invalid_grant".to_string(), error_description: None };
    match token_response_result_at(TokenResponse::Error(error.clone()), &ts(10, 0)) {
        Err(AuthError::Provider(e)) => assert_eq!(e, error),
        other => panic!("expected a provider error, got {:?}", other),
    }
    match token_response_result(TokenResponse::Error(error.clone())) {
        Some(Err(AuthError::Provider(e))) => assert_eq!(e, error),
        other => panic!("expected a provider error, got {:?}", other),
    }
    let now = token_response_result(TokenResponse::Success(success(60))).unwrap().unwrap();
    assert!(now.is_valid());
    assert!(token_response_result(TokenResponse::Success(success(MAX_DELTA_SECONDS))).is_none());
}

#[test]
fn refresh_is_planned_thirty_seconds_before_expiry() {
    let auth = Auth::Authenticated(AuthenticatedData::new(parameters(), issuer(), tokens()));
    let plan = refresh_plan_at(&auth, &ts(1_200, 0)).unwrap();
    assert_eq!(plan.delay_millis, 70_000);
    assert_eq!(plan.refresh_token, "refresh");
    // 99.5 seconds left count as 99
    assert_eq!(refresh_plan_at(&auth, &ts(1_200, 500_000_000)).unwrap().delay_millis, 69_000);
    assert_eq!(refresh_plan_at(&auth, &ts(1_270, 0)).unwrap().delay_millis, 0);
    assert_eq!(refresh_plan_at(&auth, &ts(1_269, 0)).unwrap().delay_millis, 1_000);
    assert_eq!(refresh_plan_at(&auth, &ts(5_000, 0)).unwrap().delay_millis, 0);
    assert!(refresh_plan_at(&Auth::Loading, &ts(0, 0)).is_none());
    let unauth = Auth::Unauthenticated(UnauthenticatedData::new(parameters(), issuer()));
    assert!(refresh_plan_at(&unauth, &ts(0, 0)).is_none());
}

#[test]
fn reload_only_when_loading_and_nothing_pending() {
    assert!(needs_reload(&Auth::Loading, false));
    assert!(!needs_reload(&Auth::Loading, true));
    assert!(!needs_reload(&Auth::Error(AuthError::Storage), false));
    assert_eq!(reload_path(None), "/");
    assert_eq!(reload_path(Some("/home".to_string())), "/home");
}

#[test]
fn callback_parameters() {
    let login = callback_from_params(Some("c".to_string()), Some("s".to_string()), Some("e".to_string()), None, None);
    assert_eq!(
        login,
        Ok(CallbackResponse::SuccessLogin(SuccessCallbackResponse {
            code: "c".to_string(),
            session_state: Some("s".to_string())
        }))
    );
    let error = callback_from_params(None, None, Some("foo".to_string()), Some("bla".to_string()), None);
    assert_eq!(
        error,
        Ok(CallbackResponse::Error(ErrorResponse {
            error: "foo".to_string(),
            error_description: Some("bla".to_string())
        }))
    );
    assert_eq!(
        callback_from_params(None, None, None, None, Some("true".to_string())),
        Ok(CallbackResponse::SuccessLogout(SuccessLogoutResponse { destroy_session: true }))
    );
    assert_eq!(
        callback_from_params(None, None, None, None, Some("false".to_string())),
        Ok(CallbackResponse::SuccessLogout(SuccessLogoutResponse { destroy_session: false }))
    );
    assert_eq!(
        callback_from_params(None, None, None, None, Some("yes".to_string())),
        Err(CallbackParamsError::InvalidBool("yes".to_string()))
    );
    assert_eq!(
        callback_from_params(None, None, None, None, None),
        Err(CallbackParamsError::MissingParam("code".to_string()))
    );
}
