//! The errors of the authentication process.
use std::sync::Arc;

use vstd::prelude::*;

use crate::response::ErrorResponse;

verus! {

/// `reqwest::Error`, carried through unchanged.
#[verifier::external_type_specification]
#[verifier::external_body]
pub struct ExReqwestError(reqwest::Error);

/// `serde_json::Error`, carried through unchanged.
#[verifier::external_type_specification]
#[verifier::external_body]
pub struct ExSerdeJsonError(serde_json::Error);

/// `leptos_router::params::ParamsError`, carried through unchanged.
#[verifier::external_type_specification]
#[verifier::external_body]
pub struct ExParamsError(leptos_router::params::ParamsError);

/// The derived `Clone` of `ParamsError` copies its fields: a `String` or an
/// `Arc` that keeps pointing at the same error. The copy is the same value.
pub assume_specification[ <leptos_router::params::ParamsError as Clone>::clone ](
    e: &leptos_router::params::ParamsError,
) -> (r: leptos_router::params::ParamsError)
    ensures
        r == *e,
;

/// `<Arc<T> as Clone>::clone`: a new pointer to the same value (std
/// documentation).
#[verifier::external_body]
pub(crate) fn arc_clone<T>(a: &Arc<T>) -> (r: Arc<T>)
    ensures
        r == *a,
{
    a.clone()
}

/// An enumeration representing various authentication-related errors.
#[derive(Debug, Clone)]
pub enum AuthError {
    /// An error caused by the authentication provider.
    Provider(ErrorResponse),
    /// An error related to a network request.
    Request(Arc<reqwest::Error>),
    /// An error related to handling parameters.
    Params(leptos_router::params::ParamsError),
    /// An error related to the serialization or deserialization of JSON data.
    Serde(Arc<serde_json::Error>),
    /// An error indicating the inability to initialize local storage.
    Storage,
}

impl AuthError {
    /// A copy of the error.
    pub fn copied(&self) -> (r: Self)
        ensures
            r == *self,
    {
        match self {
            AuthError::Provider(e) => AuthError::Provider(e.copied()),
            AuthError::Request(e) => AuthError::Request(arc_clone(e)),
            AuthError::Params(e) => AuthError::Params(e.clone()),
            AuthError::Serde(e) => AuthError::Serde(arc_clone(e)),
            AuthError::Storage => AuthError::Storage,
        }
    }
}

} // verus!
