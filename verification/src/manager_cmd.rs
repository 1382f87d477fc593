//! Error codes of manager commands, which frontends act on.

use crate::errors::{ApiError, ApiErrorKind, ClientError, ConfigSaveError};
use vstd::prelude::*;

verus! {

/// High-level command error codes, which are actionable for frontends: they trigger specific
/// frontend behaviour or correlate with specific error messages. All other errors map to `Other`.
#[derive(Debug, Clone, Copy, PartialEq, Eq, Structural)]
pub enum ManagerCmdErrorCode {
    ApiError,
    ApiNoLongerSupported,
    ApiRateLimitExceeded,
    ApiSignupLimitExceeded,
    ApiUnreachable,
    ConfigSaveError,
    Other,
    TunnelInactive,
}

/// The camel-case name of a command error code.
pub open spec fn manager_cmd_error_code_name(code: ManagerCmdErrorCode) -> Seq<char> {
    match code {
        ManagerCmdErrorCode::ApiError => "apiError"@,
        ManagerCmdErrorCode::ApiNoLongerSupported => "apiNoLongerSupported"@,
        ManagerCmdErrorCode::ApiRateLimitExceeded => "apiRateLimitExceeded"@,
        ManagerCmdErrorCode::ApiSignupLimitExceeded => "apiSignupLimitExceeded"@,
        ManagerCmdErrorCode::ApiUnreachable => "apiUnreachable"@,
        ManagerCmdErrorCode::ConfigSaveError => "configSaveError"@,
        ManagerCmdErrorCode::Other => "other"@,
        ManagerCmdErrorCode::TunnelInactive => "tunnelInactive"@,
    }
}

impl ManagerCmdErrorCode {
    pub fn as_static_str(&self) -> (r: &'static str)
        ensures
            r@ == manager_cmd_error_code_name(*self),
    {
        match self {
            ManagerCmdErrorCode::ApiError => "apiError",
            ManagerCmdErrorCode::ApiNoLongerSupported => "apiNoLongerSupported",
            ManagerCmdErrorCode::ApiRateLimitExceeded => "apiRateLimitExceeded",
            ManagerCmdErrorCode::ApiSignupLimitExceeded => "apiSignupLimitExceeded",
            ManagerCmdErrorCode::ApiUnreachable => "apiUnreachable",
            ManagerCmdErrorCode::ConfigSaveError => "configSaveError",
            ManagerCmdErrorCode::Other => "other",
            ManagerCmdErrorCode::TunnelInactive => "tunnelInactive",
        }
    }
}

/// The command error code of an API error: three kinds of API answers get their own code, a
/// failure to reach the API is `ApiUnreachable`, a failure to save the configuration is
/// `ConfigSaveError`, and everything else is an API error.
pub open spec fn api_error_cmd_code(err: ApiError) -> ManagerCmdErrorCode {
    match err {
        ApiError::ApiClient(ClientError::ApiError(kind)) => match kind {
            ApiErrorKind::NoLongerSupported => ManagerCmdErrorCode::ApiNoLongerSupported,
            ApiErrorKind::RateLimitExceeded => ManagerCmdErrorCode::ApiRateLimitExceeded,
            ApiErrorKind::SignupLimitExceeded => ManagerCmdErrorCode::ApiSignupLimitExceeded,
            _ => ManagerCmdErrorCode::ApiError,
        },
        ApiError::ApiClient(ClientError::RequestExecError(_)) => ManagerCmdErrorCode::ApiUnreachable,
        ApiError::ConfigSave(_) => ManagerCmdErrorCode::ConfigSaveError,
        _ => ManagerCmdErrorCode::ApiError,
    }
}

impl<'a> From<&'a ConfigSaveError> for ManagerCmdErrorCode {
    fn from(err: &'a ConfigSaveError) -> (r: Self) {
        ManagerCmdErrorCode::ConfigSaveError
    }
}

impl<'a> vstd::std_specs::convert::FromSpecImpl<&'a ConfigSaveError> for ManagerCmdErrorCode {
    open spec fn obeys_from_spec() -> bool {
        true
    }

    open spec fn from_spec(err: &'a ConfigSaveError) -> ManagerCmdErrorCode {
        ManagerCmdErrorCode::ConfigSaveError
    }
}

impl<'a> From<&'a ApiError> for ManagerCmdErrorCode {
    fn from(err: &'a ApiError) -> (r: Self) {
        match err {
            ApiError::ApiClient(err) => match err {
                ClientError::ApiError(kind) => match kind {
                    ApiErrorKind::NoLongerSupported => ManagerCmdErrorCode::ApiNoLongerSupported,
                    ApiErrorKind::RateLimitExceeded => ManagerCmdErrorCode::ApiRateLimitExceeded,
                    ApiErrorKind::SignupLimitExceeded => ManagerCmdErrorCode::ApiSignupLimitExceeded,
                    ApiErrorKind::AccountExpired
                    | ApiErrorKind::AlreadyExists
                    | ApiErrorKind::AlreadyReferred
                    | ApiErrorKind::BadRequest
                    | ApiErrorKind::IneligibleForReferral
                    | ApiErrorKind::InternalError
                    | ApiErrorKind::InvalidAccountId
                    | ApiErrorKind::InvalidReferralCode
                    | ApiErrorKind::MiscUnauthorized
                    | ApiErrorKind::MissingOrInvalidAuthToken
                    | ApiErrorKind::MoneroTopUpNotFound
                    | ApiErrorKind::NoApiRoute
                    | ApiErrorKind::NoMatchingExit
                    | ApiErrorKind::SaleNotFound
                    | ApiErrorKind::TunnelLimitExceeded
                    | ApiErrorKind::WgKeyRotationRequired
                    | ApiErrorKind::Unknown(_) => ManagerCmdErrorCode::ApiError,
                },
                ClientError::RequestExecError(_) => ManagerCmdErrorCode::ApiUnreachable,
                ClientError::ResponseTooLarge
                | ClientError::InvalidHeaderValue
                | ClientError::Other(_)
                | ClientError::ProtocolError(_) => ManagerCmdErrorCode::ApiError,
            },
            ApiError::ConfigSave(err) => ManagerCmdErrorCode::from(err),
            ApiError::NoAccountId => ManagerCmdErrorCode::ApiError,
        }
    }
}

impl<'a> vstd::std_specs::convert::FromSpecImpl<&'a ApiError> for ManagerCmdErrorCode {
    open spec fn obeys_from_spec() -> bool {
        true
    }

    open spec fn from_spec(err: &'a ApiError) -> ManagerCmdErrorCode {
        api_error_cmd_code(*err)
    }
}

} // verus!
