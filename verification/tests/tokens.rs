use leptos_oidc::response::SuccessTokenResponse;
use leptos_oidc::time::{MAX_DELTA_SECONDS, MAX_SECONDS};
use leptos_oidc::{Timestamp, TokenStorage};

fn ts(secs: i64, nanos: u32) -> Timestamp {
    Timestamp::new(secs, nanos).unwrap()
}

fn response(expires_in: i64, refresh_expires_in: Option<i64>) -> SuccessTokenResponse {
    SuccessTokenResponse {
        id_token: "id".to_string(),
        access_token: "access".to_string(),
        expires_in,
        refresh_token: "refresh".to_string(),
        refresh_expires_in,
    }
}

#[test]
fn stored_tokens_count_lifetimes_from_now() {
    let now = ts(1_000, 5);
    let t = TokenStorage::from_token_response_at(response(300, Some(1_800)), &now);
    assert_eq!(t.id_token, "id");
    assert_eq!(t.access_token, "access");
    assert_eq!(t.refresh_token, "refresh");
    assert_eq!(t.expires_in, ts(1_300, 5));
    assert_eq!(t.refresh_expires_in, Some(ts(2_800, 5)));
}

#[test]
fn lifetime_outside_time_delta_counts_as_zero() {
    let now = ts(1_000, 0);
    let t = TokenStorage::from_token_response_at(response(MAX_DELTA_SECONDS + 1, None), &now);
    assert_eq!(t.expires_in, now);
    assert_eq!(t.refresh_expires_in, None);
    assert!(t.is_valid_at(&now));
}

#[test]
fn expiry_past_the_range_does_not_fit() {
    let now = ts(MAX_SECONDS - 10, 0);
    assert!(!TokenStorage::response_fits_at(&response(11, None), &now));
    assert!(TokenStorage::response_fits_at(&response(10, None), &now));
    assert!(!TokenStorage::response_fits_at(&response(10, Some(11)), &now));
    assert!(TokenStorage::response_fits_at(&response(MAX_DELTA_SECONDS + 1, None), &now));
}

#[test]
fn validity_boundaries() {
    let now = ts(1_000, 0);
    let t = TokenStorage::from_token_response_at(response(0, Some(-1)), &now);
    assert!(t.is_valid_at(&now));
    assert!(!t.is_valid_at(&ts(1_000, 1)));
    assert!(t.is_valid_at(&ts(999, 999_999_999)));
    assert!(!t.is_refresh_token_valid_at(&now));
    assert!(t.is_refresh_token_valid_at(&ts(999, 0)));
}

#[test]
fn fresh_tokens_with_negative_lifetime_are_not_valid() {
    let now = ts(50, 0);
    let t = TokenStorage::from_token_response_at(response(-1, Some(5)), &now);
    assert!(!t.is_valid_at(&now));
    assert!(t.is_refresh_token_valid_at(&now));
}

#[test]
fn validity_is_monotone_in_time() {
    let t = TokenStorage::from_token_response_at(response(60, None), &ts(0, 0));
    assert!(t.is_valid_at(&ts(60, 0)));
    for s in [-5, 0, 1, 30, 59, 60] {
        assert!(t.is_valid_at(&ts(s, 0)));
    }
    assert!(!t.is_valid_at(&ts(61, 0)));
}

#[test]
fn refresh_token_without_expiry_is_valid() {
    let t = TokenStorage::from_token_response_at(response(60, None), &ts(0, 0));
    assert!(t.is_refresh_token_valid_at(&ts(MAX_SECONDS, 0)));
    assert!(t.is_refresh_token_valid());
}

#[test]
fn tokens_from_response_at_current_time() {
    let t = TokenStorage::from_token_response(response(3_600, Some(7_200))).unwrap();
    assert_eq!(t.access_token, "access");
    let refresh = t.refresh_expires_in.unwrap();
    assert_eq!(refresh.secs() - t.expires_in.secs(), 3_600);
    assert_eq!(refresh.nanos(), t.expires_in.nanos());
    assert!(t.is_valid());
    assert!(t.is_refresh_token_valid());
}

#[test]
fn tokens_from_response_overflowing_gives_none() {
    assert!(TokenStorage::from_token_response(response(MAX_DELTA_SECONDS, None)).is_none());
}

#[test]
fn expired_tokens_are_not_valid_now() {
    let t = TokenStorage::from_token_response(response(-3_600, Some(-10))).unwrap();
    assert!(!t.is_valid());
    assert!(!t.is_refresh_token_valid());
}
