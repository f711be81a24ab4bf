//! The tokens kept between page loads, and when they count as valid.
use vstd::prelude::*;

use crate::response::{copy_opt_string, SuccessTokenResponse};
use crate::time::{
    at_or_after, delta_in_range, in_time_range, local_now_utc, seconds_make_delta, utc_now,
    Timestamp, MAX_SECONDS, MIN_SECONDS,
};

verus! {

/// The key used for storing authentication token data in local storage.
pub const LOCAL_STORAGE_KEY: &'static str = "auth";

/// The key used for storing the PKCE code verifier in session storage.
pub const CODE_VERIFIER_KEY: &'static str = "code_verifier";

/// The lifetime that a token response's seconds stand for: the seconds when
/// they make a `TimeDelta`, and zero (`TimeDelta::default()`) otherwise.
pub open spec fn lifetime_seconds(seconds: i64) -> int {
    if delta_in_range(seconds as int) {
        seconds as int
    } else {
        0
    }
}

/// Whether `now` moved by the lifetime `seconds` stays a representable time;
/// where it does not, adding them to a `NaiveDateTime` panics.
pub open spec fn expiry_fits(now: (i64, u32), seconds: i64) -> bool {
    MIN_SECONDS <= now.0 + lifetime_seconds(seconds) <= MAX_SECONDS
}

/// Whether both expiries of `value`, counted from `now`, are representable.
pub open spec fn response_fits(value: SuccessTokenResponse, now: (i64, u32)) -> bool {
    &&& expiry_fits(now, value.expires_in)
    &&& (value.refresh_expires_in matches Some(r) ==> expiry_fits(now, r))
}

/// `expiry` is `now` moved by the lifetime `seconds`.
pub open spec fn expires_after(expiry: (i64, u32), now: (i64, u32), seconds: i64) -> bool {
    expiry.0 == now.0 + lifetime_seconds(seconds) && expiry.1 == now.1
}

/// A structure representing the storage of authentication tokens.
#[derive(Debug, Clone, PartialEq, Eq, Hash)]
pub struct TokenStorage {
    pub id_token: String,
    pub access_token: String,
    pub expires_in: Timestamp,
    pub refresh_token: String,
    pub refresh_expires_in: Option<Timestamp>,
}

impl TokenStorage {
    /// The access token is still valid at `now`: it expires at `now` or later.
    pub open spec fn valid_at(self, now: (i64, u32)) -> bool {
        at_or_after(self.expires_in@, now)
    }

    /// The refresh token is still valid at `now`. A provider that sends no
    /// `refresh_expires_in` gives a refresh token that does not expire.
    pub open spec fn refresh_valid_at(self, now: (i64, u32)) -> bool {
        match self.refresh_expires_in {
            Some(e) => at_or_after(e@, now),
            None => true,
        }
    }

    /// `self` holds the tokens of `value`, with the lifetimes counted from `now`.
    pub open spec fn stores_response(self, value: SuccessTokenResponse, now: (i64, u32)) -> bool {
        &&& self.id_token == value.id_token
        &&& self.access_token == value.access_token
        &&& self.refresh_token == value.refresh_token
        &&& expires_after(self.expires_in@, now, value.expires_in)
        &&& match (self.refresh_expires_in, value.refresh_expires_in) {
            (Some(e), Some(seconds)) => expires_after(e@, now, seconds),
            (None, None) => true,
            _ => false,
        }
    }

    /// Whether the access token is still valid at `now`.
    pub fn is_valid_at(&self, now: &Timestamp) -> (r: bool)
        ensures
            r == self.valid_at(now@),
    {
        self.expires_in.is_at_or_after(now)
    }

    /// Whether the access token is still valid at the current time.
    pub fn is_valid(&self) -> (r: bool)
        ensures
            exists|now: (i64, u32)| in_time_range(now) && r == self.valid_at(now),
    {
        let now = local_now_utc();
        let r = self.is_valid_at(&now);
        proof {
            use_type_invariant(&now);
            assert(in_time_range(now@) && r == self.valid_at(now@));
        }
        r
    }

    /// Whether the refresh token is still valid at `now`.
    pub fn is_refresh_token_valid_at(&self, now: &Timestamp) -> (r: bool)
        ensures
            r == self.refresh_valid_at(now@),
    {
        match &self.refresh_expires_in {
            Some(e) => e.is_at_or_after(now),
            None => true,
        }
    }

    /// Whether the refresh token is still valid at the current time.
    pub fn is_refresh_token_valid(&self) -> (r: bool)
        ensures
            exists|now: (i64, u32)| in_time_range(now) && r == self.refresh_valid_at(now),
    {
        let now = local_now_utc();
        let r = self.is_refresh_token_valid_at(&now);
        proof {
            use_type_invariant(&now);
            assert(in_time_range(now@) && r == self.refresh_valid_at(now@));
        }
        r
    }

    /// Whether `value`'s expiries, counted from `now`, are representable;
    /// `from_token_response_at` needs them to be.
    pub fn response_fits_at(value: &SuccessTokenResponse, now: &Timestamp) -> (r: bool)
        ensures
            r == response_fits(*value, now@),
    {
        let fits_access = expiry_fits_at(now, value.expires_in);
        match value.refresh_expires_in {
            Some(seconds) => fits_access && expiry_fits_at(now, seconds),
            None => fits_access,
        }
    }

    /// The tokens of a token response, with their expiries counted from `now`.
    pub fn from_token_response_at(value: SuccessTokenResponse, now: &Timestamp) -> (r: Self)
        requires
            response_fits(value, now@),
        ensures
            r.stores_response(value, now@),
    {
        let expires_in = expiry_at(now, value.expires_in);
        let refresh_expires_in = match value.refresh_expires_in {
            Some(seconds) => Some(expiry_at(now, seconds)),
            None => None,
        };
        TokenStorage {
            id_token: value.id_token,
            access_token: value.access_token,
            expires_in,
            refresh_token: value.refresh_token,
            refresh_expires_in,
        }
    }

    /// The tokens of a token response, with their expiries counted from the
    /// current time; `None` where an expiry is not representable (adding the
    /// lifetime to the current `NaiveDateTime` would overflow).
    pub fn from_token_response(value: SuccessTokenResponse) -> (r: Option<Self>)
        ensures
            r matches Some(t) ==> exists|now: (i64, u32)|
                in_time_range(now) && #[trigger] t.stores_response(value, now),
            r is None ==> exists|now: (i64, u32)|
                in_time_range(now) && !#[trigger] response_fits(value, now),
    {
        let now = utc_now();
        proof {
            use_type_invariant(&now);
        }
        if Self::response_fits_at(&value, &now) {
            let t = Self::from_token_response_at(value, &now);
            assert(t.stores_response(value, now@));
            Some(t)
        } else {
            assert(!response_fits(value, now@));
            None
        }
    }

    /// A copy of the stored tokens.
    pub fn copied(&self) -> (r: Self)
        ensures
            r == *self,
    {
        TokenStorage {
            id_token: self.id_token.clone(),
            access_token: self.access_token.clone(),
            expires_in: self.expires_in,
            refresh_token: self.refresh_token.clone(),
            refresh_expires_in: self.refresh_expires_in,
        }
    }
}

/// The lifetime that `seconds` stand for (see `lifetime_seconds`).
fn lifetime_of(seconds: i64) -> (r: i64)
    ensures
        r == lifetime_seconds(seconds),
        delta_in_range(r as int),
{
    if seconds_make_delta(seconds) {
        seconds
    } else {
        0
    }
}

/// Whether `now` moved by the lifetime `seconds` is representable.
fn expiry_fits_at(now: &Timestamp, seconds: i64) -> (r: bool)
    ensures
        r == expiry_fits(now@, seconds),
{
    now.checked_add_seconds(lifetime_of(seconds)).is_some()
}

/// `now` moved by the lifetime `seconds`.
fn expiry_at(now: &Timestamp, seconds: i64) -> (r: Timestamp)
    requires
        expiry_fits(now@, seconds),
    ensures
        expires_after(r@, now@, seconds),
{
    now.checked_add_seconds(lifetime_of(seconds)).unwrap()
}

} // verus!
