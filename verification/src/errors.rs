//! Errors of connecting a tunnel, and the codes that frontends act on.

use crate::ext_types::instant_now;
use crate::network_config::NetworkConfigError;
use crate::quicwg::QuicWgConnectError;
use std::time::Instant;
use vstd::prelude::*;

verus! {

/// The kinds of errors that the API reports.
#[derive(Clone, Debug)]
pub enum ApiErrorKind {
    AccountExpired,
    AlreadyExists,
    AlreadyReferred,
    BadRequest,
    IneligibleForReferral,
    InternalError,
    InvalidAccountId,
    InvalidReferralCode,
    MiscUnauthorized,
    MissingOrInvalidAuthToken,
    MoneroTopUpNotFound,
    NoApiRoute,
    NoLongerSupported,
    NoMatchingExit,
    RateLimitExceeded,
    SaleNotFound,
    SignupLimitExceeded,
    TunnelLimitExceeded,
    WgKeyRotationRequired,
    /// A kind that this client does not know, by its name.
    Unknown(String),
}

/// How a request to the API failed.
#[derive(Debug)]
pub enum ClientError {
    /// The API answered with an error.
    ApiError(ApiErrorKind),
    /// The request could not be sent or answered; holds the description.
    RequestExecError(String),
    ResponseTooLarge,
    InvalidHeaderValue,
    Other(String),
    ProtocolError(String),
}

/// The configuration file could not be saved; holds the description.
#[derive(Debug)]
pub struct ConfigSaveError {
    pub message: String,
}

#[derive(Debug)]
pub enum ApiError {
    ApiClient(ClientError),
    ConfigSave(ConfigSaveError),
    NoAccountId,
}

impl ApiError {
    /// The kind of error that the API answered with, if it answered with one.
    pub fn api_error_kind(&self) -> (r: Option<&ApiErrorKind>)
        ensures
            r == (match *self {
                ApiError::ApiClient(ClientError::ApiError(kind)) => Some(&kind),
                _ => None,
            }),
    {
        match self {
            ApiError::ApiClient(ClientError::ApiError(kind)) => Some(kind),
            _ => None,
        }
    }
}

#[derive(Debug)]
pub enum RelaySelectionError {
    NoSuccess,
    QuicSetup(anyhow::Error),
    UdpSetup(std::io::Error),
}

#[derive(Debug)]
pub enum TunnelConnectError {
    ApiError(ApiError),
    ConfigSave(ConfigSaveError),
    InvalidTunnelId,
    NetworkConfig(NetworkConfigError),
    NoExit,
    NoInternet,
    RelaySelection(RelaySelectionError),
    TunnelConnect(QuicWgConnectError),
    UnexpectedInternalTunnelLifecycleState,
    UnexpectedRelay,
    UnexpectedTunnelKind,
}

/// An error, with the time it happened.
#[derive(Debug)]
pub struct ErrorAt<T> {
    pub error: T,
    pub at: Instant,
}

impl<T> ErrorAt<T> {
    /// `error`, happening now.
    pub fn new(error: T) -> (r: Self)
        ensures
            r.error == error,
    {
        ErrorAt { error, at: instant_now() }
    }
}

/// High-level connection error codes, which are actionable for frontends: they trigger specific
/// frontend behaviour or correlate with specific error messages. All other errors map to `Other`.
#[derive(Debug, Clone, Copy, PartialEq, Eq, Structural)]
pub enum ConnectErrorCode {
    AccountExpired,
    ApiError,
    ApiRateLimitExceeded,
    ApiUnreachable,
    InvalidAccountId,
    NoInternet,
    NoLongerSupported,
    NoSlotsLeft,
    Other,
}

/// The camel-case name of a connect error code.
pub open spec fn connect_error_code_name(code: ConnectErrorCode) -> Seq<char> {
    match code {
        ConnectErrorCode::AccountExpired => "accountExpired"@,
        ConnectErrorCode::ApiError => "apiError"@,
        ConnectErrorCode::ApiRateLimitExceeded => "apiRateLimitExceeded"@,
        ConnectErrorCode::ApiUnreachable => "apiUnreachable"@,
        ConnectErrorCode::InvalidAccountId => "invalidAccountId"@,
        ConnectErrorCode::NoInternet => "noInternet"@,
        ConnectErrorCode::NoLongerSupported => "noLongerSupported"@,
        ConnectErrorCode::NoSlotsLeft => "noSlotsLeft"@,
        ConnectErrorCode::Other => "other"@,
    }
}

impl ConnectErrorCode {
    pub fn as_static_str(&self) -> (r: &'static str)
        ensures
            r@ == connect_error_code_name(*self),
    {
        match self {
            ConnectErrorCode::AccountExpired => "accountExpired",
            ConnectErrorCode::ApiError => "apiError",
            ConnectErrorCode::ApiRateLimitExceeded => "apiRateLimitExceeded",
            ConnectErrorCode::ApiUnreachable => "apiUnreachable",
            ConnectErrorCode::InvalidAccountId => "invalidAccountId",
            ConnectErrorCode::NoInternet => "noInternet",
            ConnectErrorCode::NoLongerSupported => "noLongerSupported",
            ConnectErrorCode::NoSlotsLeft => "noSlotsLeft",
            ConnectErrorCode::Other => "other",
        }
    }
}

/// The connect error code of an API error kind: the kinds a user can act on get their own code,
/// all others are API errors.
pub open spec fn api_kind_connect_code(kind: ApiErrorKind) -> ConnectErrorCode {
    match kind {
        ApiErrorKind::AccountExpired => ConnectErrorCode::AccountExpired,
        ApiErrorKind::InvalidAccountId => ConnectErrorCode::InvalidAccountId,
        ApiErrorKind::NoLongerSupported => ConnectErrorCode::NoLongerSupported,
        ApiErrorKind::TunnelLimitExceeded => ConnectErrorCode::NoSlotsLeft,
        ApiErrorKind::RateLimitExceeded => ConnectErrorCode::ApiRateLimitExceeded,
        _ => ConnectErrorCode::ApiError,
    }
}

/// The connect error code of a tunnel connect error.
pub open spec fn connect_error_code(err: TunnelConnectError) -> ConnectErrorCode {
    match err {
        TunnelConnectError::ApiError(ApiError::ApiClient(ClientError::ApiError(kind))) => api_kind_connect_code(kind),
        TunnelConnectError::ApiError(ApiError::ApiClient(ClientError::RequestExecError(_))) => ConnectErrorCode::ApiUnreachable,
        TunnelConnectError::NoInternet => ConnectErrorCode::NoInternet,
        _ => ConnectErrorCode::Other,
    }
}

impl<'a> From<&'a TunnelConnectError> for ConnectErrorCode {
    fn from(err: &'a TunnelConnectError) -> (r: Self) {
        match err {
            TunnelConnectError::ApiError(err) => match err {
                ApiError::NoAccountId => ConnectErrorCode::Other,
                ApiError::ApiClient(err) => match err {
                    ClientError::ApiError(kind) => match kind {
                        ApiErrorKind::AccountExpired => ConnectErrorCode::AccountExpired,
                        ApiErrorKind::InvalidAccountId => ConnectErrorCode::InvalidAccountId,
                        ApiErrorKind::NoLongerSupported => ConnectErrorCode::NoLongerSupported,
                        ApiErrorKind::TunnelLimitExceeded => ConnectErrorCode::NoSlotsLeft,
                        ApiErrorKind::RateLimitExceeded => ConnectErrorCode::ApiRateLimitExceeded,
                        ApiErrorKind::AlreadyExists
                        | ApiErrorKind::AlreadyReferred
                        | ApiErrorKind::BadRequest
                        | ApiErrorKind::IneligibleForReferral
                        | ApiErrorKind::InternalError
                        | ApiErrorKind::InvalidReferralCode
                        | ApiErrorKind::MiscUnauthorized
                        | ApiErrorKind::MissingOrInvalidAuthToken
                        | ApiErrorKind::MoneroTopUpNotFound
                        | ApiErrorKind::NoApiRoute
                        | ApiErrorKind::NoMatchingExit
                        | ApiErrorKind::SaleNotFound
                        | ApiErrorKind::SignupLimitExceeded
                        | ApiErrorKind::WgKeyRotationRequired
                        | ApiErrorKind::Unknown(_) => ConnectErrorCode::ApiError,
                    },
                    ClientError::RequestExecError(_) => ConnectErrorCode::ApiUnreachable,
                    ClientError::ResponseTooLarge
                    | ClientError::InvalidHeaderValue
                    | ClientError::Other(_)
                    | ClientError::ProtocolError(_) => ConnectErrorCode::Other,
                },
                ApiError::ConfigSave(_) => ConnectErrorCode::Other,
            },
            TunnelConnectError::NoInternet => ConnectErrorCode::NoInternet,
            TunnelConnectError::NetworkConfig(_)
            | TunnelConnectError::NoExit
            | TunnelConnectError::TunnelConnect(_)
            | TunnelConnectError::InvalidTunnelId
            | TunnelConnectError::UnexpectedRelay
            | TunnelConnectError::UnexpectedTunnelKind
            | TunnelConnectError::UnexpectedInternalTunnelLifecycleState
            | TunnelConnectError::RelaySelection(_)
            | TunnelConnectError::ConfigSave(_) => ConnectErrorCode::Other,
        }
    }
}

impl<'a> vstd::std_specs::convert::FromSpecImpl<&'a TunnelConnectError> for ConnectErrorCode {
    open spec fn obeys_from_spec() -> bool {
        true
    }

    open spec fn from_spec(err: &'a TunnelConnectError) -> ConnectErrorCode {
        connect_error_code(*err)
    }
}

} // verus!
