//! Error codes of the Linux GUI, by which the frontend picks its messages.

use crate::linux::ipc::LinuxIpcError;
use crate::manager_cmd::{manager_cmd_error_code_name, ManagerCmdErrorCode};
use vstd::prelude::*;

verus! {

/// Why a command could not reach the service.
#[derive(Debug, Clone, Copy, PartialEq, Eq, Structural)]
pub enum LinuxIpcErrorCode {
    InsufficientPermissions,
    NoListener,
    VersionMismatch,
}

/// The name of an IPC error code: `linuxIpc-` and the camel-case variant.
pub open spec fn linux_ipc_error_code_name(code: LinuxIpcErrorCode) -> Seq<char> {
    match code {
        LinuxIpcErrorCode::InsufficientPermissions => "linuxIpc-insufficientPermissions"@,
        LinuxIpcErrorCode::NoListener => "linuxIpc-noListener"@,
        LinuxIpcErrorCode::VersionMismatch => "linuxIpc-versionMismatch"@,
    }
}

impl LinuxIpcErrorCode {
    pub fn as_static_str(&self) -> (r: &'static str)
        ensures
            r@ == linux_ipc_error_code_name(*self),
    {
        match self {
            LinuxIpcErrorCode::InsufficientPermissions => "linuxIpc-insufficientPermissions",
            LinuxIpcErrorCode::NoListener => "linuxIpc-noListener",
            LinuxIpcErrorCode::VersionMismatch => "linuxIpc-versionMismatch",
        }
    }
}

/// Why fixing the service's installation failed.
#[derive(Debug, Clone, Copy, PartialEq, Eq, Structural)]
pub enum LinuxFixErrorCode {
    PkexecUnavailable,
    AuthorizationDismissed,
    AuthorizationDenied,
    UsernameUnknown,
    AddOperatorFailed,
    ServiceRestartFailed,
    ServiceEnableAndRestartFailed,
    ServiceStartFailed,
    ServiceStartTimeout,
}

/// The name of a fix error code: `linuxFix-` and the camel-case variant.
pub open spec fn linux_fix_error_code_name(code: LinuxFixErrorCode) -> Seq<char> {
    match code {
        LinuxFixErrorCode::PkexecUnavailable => "linuxFix-pkexecUnavailable"@,
        LinuxFixErrorCode::AuthorizationDismissed => "linuxFix-authorizationDismissed"@,
        LinuxFixErrorCode::AuthorizationDenied => "linuxFix-authorizationDenied"@,
        LinuxFixErrorCode::UsernameUnknown => "linuxFix-usernameUnknown"@,
        LinuxFixErrorCode::AddOperatorFailed => "linuxFix-addOperatorFailed"@,
        LinuxFixErrorCode::ServiceRestartFailed => "linuxFix-serviceRestartFailed"@,
        LinuxFixErrorCode::ServiceEnableAndRestartFailed => "linuxFix-serviceEnableAndRestartFailed"@,
        LinuxFixErrorCode::ServiceStartFailed => "linuxFix-serviceStartFailed"@,
        LinuxFixErrorCode::ServiceStartTimeout => "linuxFix-serviceStartTimeout"@,
    }
}

impl LinuxFixErrorCode {
    pub fn as_static_str(&self) -> (r: &'static str)
        ensures
            r@ == linux_fix_error_code_name(*self),
    {
        match self {
            LinuxFixErrorCode::PkexecUnavailable => "linuxFix-pkexecUnavailable",
            LinuxFixErrorCode::AuthorizationDismissed => "linuxFix-authorizationDismissed",
            LinuxFixErrorCode::AuthorizationDenied => "linuxFix-authorizationDenied",
            LinuxFixErrorCode::UsernameUnknown => "linuxFix-usernameUnknown",
            LinuxFixErrorCode::AddOperatorFailed => "linuxFix-addOperatorFailed",
            LinuxFixErrorCode::ServiceRestartFailed => "linuxFix-serviceRestartFailed",
            LinuxFixErrorCode::ServiceEnableAndRestartFailed => "linuxFix-serviceEnableAndRestartFailed",
            LinuxFixErrorCode::ServiceStartFailed => "linuxFix-serviceStartFailed",
            LinuxFixErrorCode::ServiceStartTimeout => "linuxFix-serviceStartTimeout",
        }
    }
}

/// Any error code that the Linux GUI shows.
#[derive(Debug, Clone, Copy, PartialEq, Eq, Structural)]
pub enum LinuxErrorCode {
    Other,
    DebugBundleInProgress,
    ManagerCmd(ManagerCmdErrorCode),
    Ipc(LinuxIpcErrorCode),
    Fix(LinuxFixErrorCode),
}

/// The name of a GUI error code.
pub open spec fn linux_error_code_name(code: LinuxErrorCode) -> Seq<char> {
    match code {
        LinuxErrorCode::Other => "other"@,
        LinuxErrorCode::DebugBundleInProgress => "debugBundleInProgress"@,
        LinuxErrorCode::ManagerCmd(c) => manager_cmd_error_code_name(c),
        LinuxErrorCode::Ipc(c) => linux_ipc_error_code_name(c),
        LinuxErrorCode::Fix(c) => linux_fix_error_code_name(c),
    }
}

impl LinuxErrorCode {
    pub fn as_static_str(&self) -> (r: &'static str)
        ensures
            r@ == linux_error_code_name(*self),
    {
        match self {
            LinuxErrorCode::Other => "other",
            LinuxErrorCode::DebugBundleInProgress => "debugBundleInProgress",
            LinuxErrorCode::ManagerCmd(code) => code.as_static_str(),
            LinuxErrorCode::Ipc(code) => code.as_static_str(),
            LinuxErrorCode::Fix(code) => code.as_static_str(),
        }
    }
}

impl From<ManagerCmdErrorCode> for LinuxErrorCode {
    fn from(code: ManagerCmdErrorCode) -> (r: Self) {
        LinuxErrorCode::ManagerCmd(code)
    }
}

impl vstd::std_specs::convert::FromSpecImpl<ManagerCmdErrorCode> for LinuxErrorCode {
    open spec fn obeys_from_spec() -> bool {
        true
    }

    open spec fn from_spec(code: ManagerCmdErrorCode) -> LinuxErrorCode {
        LinuxErrorCode::ManagerCmd(code)
    }
}

impl From<LinuxFixErrorCode> for LinuxErrorCode {
    fn from(code: LinuxFixErrorCode) -> (r: Self) {
        LinuxErrorCode::Fix(code)
    }
}

impl vstd::std_specs::convert::FromSpecImpl<LinuxFixErrorCode> for LinuxErrorCode {
    open spec fn obeys_from_spec() -> bool {
        true
    }

    open spec fn from_spec(code: LinuxFixErrorCode) -> LinuxErrorCode {
        LinuxErrorCode::Fix(code)
    }
}

/// The GUI error code of an IPC error.
pub open spec fn ipc_error_code(error: LinuxIpcError) -> LinuxErrorCode {
    match error {
        LinuxIpcError::InsufficientPermissions => LinuxErrorCode::Ipc(LinuxIpcErrorCode::InsufficientPermissions),
        LinuxIpcError::NoListener => LinuxErrorCode::Ipc(LinuxIpcErrorCode::NoListener),
        LinuxIpcError::VersionMismatch { .. } => LinuxErrorCode::Ipc(LinuxIpcErrorCode::VersionMismatch),
        LinuxIpcError::Other => LinuxErrorCode::Other,
    }
}

impl<'a> From<&'a LinuxIpcError> for LinuxErrorCode {
    fn from(error: &'a LinuxIpcError) -> (r: Self) {
        match error {
            LinuxIpcError::InsufficientPermissions => LinuxErrorCode::Ipc(LinuxIpcErrorCode::InsufficientPermissions),
            LinuxIpcError::NoListener => LinuxErrorCode::Ipc(LinuxIpcErrorCode::NoListener),
            LinuxIpcError::VersionMismatch { service_version: _, app_version: _ } => LinuxErrorCode::Ipc(
                LinuxIpcErrorCode::VersionMismatch,
            ),
            LinuxIpcError::Other => LinuxErrorCode::Other,
        }
    }
}

impl<'a> vstd::std_specs::convert::FromSpecImpl<&'a LinuxIpcError> for LinuxErrorCode {
    open spec fn obeys_from_spec() -> bool {
        true
    }

    open spec fn from_spec(error: &'a LinuxIpcError) -> LinuxErrorCode {
        ipc_error_code(*error)
    }
}

} // verus!
