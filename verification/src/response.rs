//! What the authentication provider sends back: the parameters of the
//! redirect to `redirect_uri` / `post_logout_redirect_uri`, and the body of a
//! token endpoint response.
use vstd::prelude::*;
use vstd::string::StringExecFns;

verus! {

/// An error reported by the provider.
#[derive(Debug, Clone, PartialEq, Eq, Hash)]
pub struct ErrorResponse {
    pub error: String,
    pub error_description: Option<String>,
}

/// The query parameters of a successful authorization redirect.
#[derive(Debug, Clone, PartialEq, Eq, Hash)]
pub struct SuccessCallbackResponse {
    pub code: String,
    pub session_state: Option<String>,
}

/// The query parameters of the redirect after a logout.
#[derive(Debug, Clone, PartialEq, Eq, Hash)]
pub struct SuccessLogoutResponse {
    pub destroy_session: bool,
}

/// The query parameters the provider redirects back with.
#[derive(Debug, Clone, PartialEq, Eq, Hash)]
pub enum CallbackResponse {
    SuccessLogin(SuccessCallbackResponse),
    SuccessLogout(SuccessLogoutResponse),
    Error(ErrorResponse),
}

/// A successful token endpoint response; the lifetimes are in seconds.
#[derive(Debug, Clone, PartialEq, Eq, Hash)]
pub struct SuccessTokenResponse {
    pub id_token: String,
    pub access_token: String,
    pub expires_in: i64,
    pub refresh_token: String,
    pub refresh_expires_in: Option<i64>,
}

/// The body of a token endpoint response.
#[derive(Debug, Clone, PartialEq, Eq, Hash)]
pub enum TokenResponse {
    Success(SuccessTokenResponse),
    Error(ErrorResponse),
}

/// Why the query parameters are not a callback of the provider.
#[derive(Debug, Clone, PartialEq, Eq, Hash)]
pub enum CallbackParamsError {
    /// None of the parameters that make a callback is there; names the one
    /// looked for first.
    MissingParam(String),
    /// `destroy_session` holds this value, which is neither `true` nor `false`.
    InvalidBool(String),
}

/// Reads the callback from its query parameters: an authorization `code`
/// makes a login callback, else an `error` makes a provider error, else a
/// `destroy_session` flag (`true` or `false`) makes a logout callback.
pub fn callback_from_params(
    code: Option<String>,
    session_state: Option<String>,
    error: Option<String>,
    error_description: Option<String>,
    destroy_session: Option<String>,
) -> (r: Result<CallbackResponse, CallbackParamsError>)
    ensures
        match (code, error, destroy_session) {
            (Some(code), _, _) => r == Ok::<CallbackResponse, CallbackParamsError>(
                CallbackResponse::SuccessLogin(SuccessCallbackResponse { code, session_state }),
            ),
            (None, Some(error), _) => r == Ok::<CallbackResponse, CallbackParamsError>(
                CallbackResponse::Error(ErrorResponse { error, error_description }),
            ),
            (None, None, Some(flag)) => if flag@ == "true"@ {
                r == Ok::<CallbackResponse, CallbackParamsError>(
                    CallbackResponse::SuccessLogout(SuccessLogoutResponse { destroy_session: true }),
                )
            } else if flag@ == "false"@ {
                r == Ok::<CallbackResponse, CallbackParamsError>(
                    CallbackResponse::SuccessLogout(SuccessLogoutResponse { destroy_session: false }),
                )
            } else {
                r == Err::<CallbackResponse, CallbackParamsError>(CallbackParamsError::InvalidBool(flag))
            },
            (None, None, None) => r matches Err(CallbackParamsError::MissingParam(name)) && name@
                == "code"@,
        },
{
    if let Some(code) = code {
        return Ok(CallbackResponse::SuccessLogin(SuccessCallbackResponse { code, session_state }));
    }
    if let Some(error) = error {
        return Ok(CallbackResponse::Error(ErrorResponse { error, error_description }));
    }
    match destroy_session {
        Some(flag) => {
            if flag == String::from_str("true") {
                Ok(CallbackResponse::SuccessLogout(SuccessLogoutResponse { destroy_session: true }))
            } else if flag == String::from_str("false") {
                Ok(CallbackResponse::SuccessLogout(SuccessLogoutResponse { destroy_session: false }))
            } else {
                Err(CallbackParamsError::InvalidBool(flag))
            }
        },
        None => Err(CallbackParamsError::MissingParam(String::from_str("code"))),
    }
}

/// A copy of an optional string.
pub(crate) fn copy_opt_string(s: &Option<String>) -> (r: Option<String>)
    ensures
        r == *s,
{
    match s {
        Some(v) => Some(v.clone()),
        None => None,
    }
}

impl ErrorResponse {
    /// A copy of the error.
    pub fn copied(&self) -> (r: Self)
        ensures
            r == *self,
    {
        ErrorResponse {
            error: self.error.clone(),
            error_description: copy_opt_string(&self.error_description),
        }
    }
}

impl SuccessCallbackResponse {
    /// A copy of the callback parameters.
    pub fn copied(&self) -> (r: Self)
        ensures
            r == *self,
    {
        SuccessCallbackResponse {
            code: self.code.clone(),
            session_state: copy_opt_string(&self.session_state),
        }
    }
}

} // verus!
