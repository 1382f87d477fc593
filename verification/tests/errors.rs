use obscuravpn_client::errors::{
    ApiError, ApiErrorKind, ClientError, ConfigSaveError, ConnectErrorCode, ErrorAt, RelaySelectionError,
    TunnelConnectError,
};
use obscuravpn_client::gui::error::{LinuxErrorCode, LinuxFixErrorCode, LinuxIpcErrorCode};
use obscuravpn_client::linux::ipc::LinuxIpcError;
use obscuravpn_client::manager_cmd::ManagerCmdErrorCode;
use obscuravpn_client::network_config::NetworkConfigError;

fn api(kind: ApiErrorKind) -> ApiError {
    ApiError::ApiClient(ClientError::ApiError(kind))
}

fn connect_code(error: TunnelConnectError) -> ConnectErrorCode {
    ConnectErrorCode::from(&error)
}

#[test]
fn connect_codes_of_api_answers() {
    assert_eq!(connect_code(TunnelConnectError::ApiError(api(ApiErrorKind::AccountExpired))), ConnectErrorCode::AccountExpired);
    assert_eq!(connect_code(TunnelConnectError::ApiError(api(ApiErrorKind::InvalidAccountId))), ConnectErrorCode::InvalidAccountId);
    assert_eq!(connect_code(TunnelConnectError::ApiError(api(ApiErrorKind::NoLongerSupported))), ConnectErrorCode::NoLongerSupported);
    assert_eq!(connect_code(TunnelConnectError::ApiError(api(ApiErrorKind::TunnelLimitExceeded))), ConnectErrorCode::NoSlotsLeft);
    assert_eq!(connect_code(TunnelConnectError::ApiError(api(ApiErrorKind::RateLimitExceeded))), ConnectErrorCode::ApiRateLimitExceeded);
    assert_eq!(connect_code(TunnelConnectError::ApiError(api(ApiErrorKind::BadRequest))), ConnectErrorCode::ApiError);
    assert_eq!(connect_code(TunnelConnectError::ApiError(api(ApiErrorKind::Unknown("new".to_owned())))), ConnectErrorCode::ApiError);
}

#[test]
fn connect_codes_of_other_errors() {
    assert_eq!(
        connect_code(TunnelConnectError::ApiError(ApiError::ApiClient(ClientError::RequestExecError("timeout".to_owned())))),
        ConnectErrorCode::ApiUnreachable
    );
    assert_eq!(connect_code(TunnelConnectError::ApiError(ApiError::ApiClient(ClientError::ResponseTooLarge))), ConnectErrorCode::Other);
    assert_eq!(connect_code(TunnelConnectError::ApiError(ApiError::NoAccountId)), ConnectErrorCode::Other);
    assert_eq!(connect_code(TunnelConnectError::NoInternet), ConnectErrorCode::NoInternet);
    assert_eq!(connect_code(TunnelConnectError::NoExit), ConnectErrorCode::Other);
    assert_eq!(connect_code(TunnelConnectError::NetworkConfig(NetworkConfigError::NoDns)), ConnectErrorCode::Other);
    assert_eq!(connect_code(TunnelConnectError::RelaySelection(RelaySelectionError::NoSuccess)), ConnectErrorCode::Other);
    assert_eq!(
        connect_code(TunnelConnectError::ConfigSave(ConfigSaveError { message: "disk full".to_owned() })),
        ConnectErrorCode::Other
    );
}

#[test]
fn connect_code_names_are_camel_case() {
    assert_eq!(ConnectErrorCode::AccountExpired.as_static_str(), "accountExpired");
    assert_eq!(ConnectErrorCode::ApiRateLimitExceeded.as_static_str(), "apiRateLimitExceeded");
    assert_eq!(ConnectErrorCode::NoSlotsLeft.as_static_str(), "noSlotsLeft");
    assert_eq!(ConnectErrorCode::Other.as_static_str(), "other");
}

#[test]
fn manager_cmd_codes_of_api_errors() {
    let code = |e: ApiError| ManagerCmdErrorCode::from(&e);
    assert_eq!(code(api(ApiErrorKind::NoLongerSupported)), ManagerCmdErrorCode::ApiNoLongerSupported);
    assert_eq!(code(api(ApiErrorKind::RateLimitExceeded)), ManagerCmdErrorCode::ApiRateLimitExceeded);
    assert_eq!(code(api(ApiErrorKind::SignupLimitExceeded)), ManagerCmdErrorCode::ApiSignupLimitExceeded);
    assert_eq!(code(api(ApiErrorKind::AccountExpired)), ManagerCmdErrorCode::ApiError);
    assert_eq!(code(ApiError::ApiClient(ClientError::RequestExecError("dns".to_owned()))), ManagerCmdErrorCode::ApiUnreachable);
    assert_eq!(code(ApiError::ApiClient(ClientError::ProtocolError("h2".to_owned()))), ManagerCmdErrorCode::ApiError);
    assert_eq!(code(ApiError::ConfigSave(ConfigSaveError { message: "ro".to_owned() })), ManagerCmdErrorCode::ConfigSaveError);
    assert_eq!(code(ApiError::NoAccountId), ManagerCmdErrorCode::ApiError);
    assert_eq!(ManagerCmdErrorCode::TunnelInactive.as_static_str(), "tunnelInactive");
}

#[test]
fn api_error_kind_only_for_api_answers() {
    assert!(matches!(api(ApiErrorKind::BadRequest).api_error_kind(), Some(ApiErrorKind::BadRequest)));
    assert!(ApiError::NoAccountId.api_error_kind().is_none());
}

#[test]
fn linux_error_code_names() {
    assert_eq!(LinuxIpcErrorCode::NoListener.as_static_str(), "linuxIpc-noListener");
    assert_eq!(LinuxIpcErrorCode::InsufficientPermissions.as_static_str(), "linuxIpc-insufficientPermissions");
    assert_eq!(LinuxFixErrorCode::ServiceEnableAndRestartFailed.as_static_str(), "linuxFix-serviceEnableAndRestartFailed");
    assert_eq!(LinuxErrorCode::DebugBundleInProgress.as_static_str(), "debugBundleInProgress");
    assert_eq!(LinuxErrorCode::from(ManagerCmdErrorCode::ApiUnreachable).as_static_str(), "apiUnreachable");
    assert_eq!(LinuxErrorCode::from(LinuxFixErrorCode::PkexecUnavailable).as_static_str(), "linuxFix-pkexecUnavailable");
}

#[test]
fn linux_error_codes_of_ipc_errors() {
    let mismatch = LinuxIpcError::VersionMismatch { service_version: "v1".to_owned(), app_version: "v2".to_owned() };
    assert_eq!(LinuxErrorCode::from(&mismatch), LinuxErrorCode::Ipc(LinuxIpcErrorCode::VersionMismatch));
    assert_eq!(LinuxErrorCode::from(&LinuxIpcError::NoListener), LinuxErrorCode::Ipc(LinuxIpcErrorCode::NoListener));
    assert_eq!(LinuxErrorCode::from(&LinuxIpcError::Other), LinuxErrorCode::Other);
}

#[test]
fn error_at_keeps_error() {
    let e = ErrorAt::new(NetworkConfigError::NoIpv6Ip);
    assert_eq!(e.error, NetworkConfigError::NoIpv6Ip);
    assert!(e.at.elapsed().as_secs() < 60);
}
