use leptos_oidc::response::{ErrorResponse, SuccessTokenResponse};
use leptos_oidc::{
    Auth, AuthError, AuthParameters, AuthenticatedData, Challenge, Configuration, IssuerMetadata, Keys,
    Timestamp, TokenStorage, UnauthenticatedData,
};

fn parameters() -> AuthParameters {
    AuthParameters {
        issuer: "https://id.example".to_string(),
        client_id: "client".to_string(),
        redirect_uri: "https://app.example/profile".to_string(),
        post_logout_redirect_uri: "https://app.example/logout".to_string(),
        challenge: Challenge::default(),
        scope: None,
        audience: None,
    }
}

fn issuer() -> IssuerMetadata {
    IssuerMetadata::new(
        Configuration {
            issuer: "https://id.example".to_string(),
            authorization_endpoint: "https://id.example/auth".to_string(),
            token_endpoint: "https://id.example/token".to_string(),
            end_session_endpoint: "https://id.example/logout".to_string(),
            jwks_uri: "https://id.example/certs".to_string(),
        },
        Keys::new(vec![]),
    )
}

fn tokens(expires_in: i64) -> TokenStorage {
    TokenStorage::from_token_response(SuccessTokenResponse {
        id_token: "id".to_string(),
        access_token: "access".to_string(),
        expires_in,
        refresh_token: "refresh".to_string(),
        refresh_expires_in: None,
    })
    .unwrap()
}

#[test]
fn auth_starts_loading() {
    let auth = Auth::default();
    assert!(auth.is_loading());
    assert!(!auth.is_loaded());
    assert!(auth.get_unauthenticated().is_none());
    assert!(auth.authenticated().is_none());
    assert!(auth.error().is_none());
    assert!(!auth.is_authenticated());
    assert_eq!(Challenge::default(), Challenge::S256);
}

#[test]
fn each_state_answers_only_its_own_getter() {
    let unauth = Auth::Unauthenticated(UnauthenticatedData::new(parameters(), issuer()));
    assert!(unauth.is_loaded());
    assert_eq!(unauth.get_unauthenticated().unwrap().get_parameters(), &parameters());
    assert!(unauth.authenticated().is_none() && unauth.error().is_none());
    assert!(!unauth.is_authenticated());

    let error = ErrorResponse { error: "e".to_string(), error_description: None };
    let failed = Auth::Error(AuthError::Provider(error.clone()));
    assert!(failed.is_loaded());
    assert!(matches!(failed.error(), Some(AuthError::Provider(e)) if e == error));
    assert!(failed.authenticated().is_none() && failed.get_unauthenticated().is_none());
}

#[test]
fn authenticated_state_with_valid_and_expired_tokens() {
    let valid = Auth::Authenticated(AuthenticatedData::new(parameters(), issuer(), tokens(3_600)));
    assert!(valid.is_authenticated());
    assert_eq!(valid.authenticated().unwrap().access_token(), "access");
    let expired = Auth::Authenticated(AuthenticatedData::new(parameters(), issuer(), tokens(-1)));
    assert!(!expired.is_authenticated());
    assert!(expired.authenticated().is_some());
    let t = Timestamp::new(0, 0).unwrap();
    assert!(valid.is_authenticated_at(&t));
    assert!(!Auth::Loading.is_authenticated_at(&t));
}

#[test]
fn error_state_hands_out_the_same_request_and_json_errors() {
    let request_error = reqwest::Client::new().get("not a url").build().unwrap_err();
    let request = std::sync::Arc::new(request_error);
    let failed = Auth::Error(AuthError::Request(request.clone()));
    match failed.error() {
        Some(AuthError::Request(e)) => assert!(std::sync::Arc::ptr_eq(&e, &request)),
        other => panic!("expected a request error, got {:?}", other),
    }
    let json_error = serde_json::from_str::<u32>("x").unwrap_err();
    let json = std::sync::Arc::new(json_error);
    let failed = Auth::Error(AuthError::Serde(json.clone()));
    match failed.error() {
        Some(AuthError::Serde(e)) => assert!(std::sync::Arc::ptr_eq(&e, &json)),
        other => panic!("expected a json error, got {:?}", other),
    }
    assert!(matches!(Auth::Error(AuthError::Storage).error(), Some(AuthError::Storage)));
}
