//! The status of the Linux client as the GUI shows it.

use crate::manager::VpnStatus;
use crate::network_config::str_equal;
use vstd::prelude::*;
use vstd::string::*;

verus! {

/// The VPN status in the terms of Apple's `NEVPNStatus`, which the frontend expects.
#[derive(Debug, Clone, Copy, PartialEq, Eq, Structural)]
pub enum NEVPNStatus {
    Invalid,
    Disconnected,
    Connecting,
    Connected,
    Reasserting,
    Disconnecting,
}

impl<'a> From<&'a VpnStatus> for NEVPNStatus {
    fn from(value: &'a VpnStatus) -> (r: Self) {
        match value {
            VpnStatus::Connecting { .. } => NEVPNStatus::Connecting,
            VpnStatus::Connected { .. } => NEVPNStatus::Connected,
            VpnStatus::Disconnected { .. } => NEVPNStatus::Disconnected,
        }
    }
}

impl<'a> vstd::std_specs::convert::FromSpecImpl<&'a VpnStatus> for NEVPNStatus {
    open spec fn obeys_from_spec() -> bool {
        true
    }

    open spec fn from_spec(value: &'a VpnStatus) -> NEVPNStatus {
        match *value {
            VpnStatus::Connecting { .. } => NEVPNStatus::Connecting,
            VpnStatus::Connected { .. } => NEVPNStatus::Connected,
            VpnStatus::Disconnected { .. } => NEVPNStatus::Disconnected,
        }
    }
}

/// The views of the main window, in the order of the sidebar.
#[derive(Debug, Clone, Copy, PartialEq, Eq, Structural)]
pub enum NavigationView {
    Connection,
    Location,
    Account,
    Settings,
    Help,
    About,
    Developer,
}

/// The views in sidebar order.
pub open spec fn navigation_views() -> Seq<NavigationView> {
    seq![
        NavigationView::Connection,
        NavigationView::Location,
        NavigationView::Account,
        NavigationView::Settings,
        NavigationView::Help,
        NavigationView::About,
        NavigationView::Developer,
    ]
}

impl NavigationView {
    /// All views, in sidebar order.
    pub fn all() -> (r: Vec<NavigationView>)
        ensures
            r@ == navigation_views(),
    {
        let r = vec![
            NavigationView::Connection,
            NavigationView::Location,
            NavigationView::Account,
            NavigationView::Settings,
            NavigationView::Help,
            NavigationView::About,
            NavigationView::Developer,
        ];
        assert(r@ =~= navigation_views());
        r
    }
}

/// Whether the app starts at login.
#[derive(Debug, Clone, Copy, PartialEq, Eq, Structural)]
pub struct LoginItemStatus {
    pub registered: bool,
}

/// Why the service does not work as it should.
#[derive(Debug, Clone)]
pub enum LinuxServiceDegradation {
    UnitInactive,
    UnitActivating,
    UnitNotInstalled,
    SocketPermissionDenied { user: Option<String> },
    VersionMismatch {
        service_version: String,
        app_version: String,
        installed_app_version_differs: Option<bool>,
    },
    Unknown,
}

/// The state of self-updates; Linux packages are updated by the package manager.
#[derive(Debug, Clone, Copy, PartialEq, Eq, Structural)]
pub enum UpdaterStatus {
    Uninitiated,
}

impl Default for UpdaterStatus {
    fn default() -> (r: Self)
        ensures
            r == UpdaterStatus::Uninitiated,
    {
        UpdaterStatus::Uninitiated
    }
}

/// The progress of debug bundles.
#[derive(Debug, Clone)]
pub struct DebugBundleStatus {
    pub in_progress: bool,
    pub latest_path: Option<String>,
    pub in_progress_counter: i64,
}

impl Default for DebugBundleStatus {
    fn default() -> (r: Self)
        ensures
            !r.in_progress,
            r.latest_path is None,
            r.in_progress_counter == 0,
    {
        DebugBundleStatus { in_progress: false, latest_path: None, in_progress_counter: 0 }
    }
}

/// Why a debug bundle was not created.
#[derive(Debug, Clone, Copy, PartialEq, Eq, Structural)]
pub enum DebugBundleError {
    /// Another bundle is being created.
    InProgress,
    Failed,
}

/// A status claimed for a new bundle: one bundle in progress, no latest path.
pub open spec fn claimed_status() -> DebugBundleStatus {
    DebugBundleStatus { in_progress: true, latest_path: None, in_progress_counter: 1 }
}

/// The status after a claim on `status`, and the claim's result: refused, with the status
/// unchanged, while a bundle is in progress.
pub open spec fn claim_spec(status: DebugBundleStatus) -> (DebugBundleStatus, Result<(), DebugBundleError>) {
    if status.in_progress {
        (status, Err(DebugBundleError::InProgress))
    } else {
        (claimed_status(), Ok(()))
    }
}

/// The status after a bundle ended: nothing in progress, and the bundle's path if it was created.
pub open spec fn finished_status(path: Option<String>) -> DebugBundleStatus {
    DebugBundleStatus { in_progress: false, latest_path: path, in_progress_counter: 0 }
}

impl DebugBundleStatus {
    /// Claims the right to create a bundle: refused while another one is in progress; else the
    /// status shows one bundle in progress and no latest path.
    pub fn try_claim(&mut self) -> (r: Result<(), DebugBundleError>)
        ensures
            (*final(self), r) == claim_spec(*old(self)),
    {
        if self.in_progress {
            return Err(DebugBundleError::InProgress);
        }
        *self = DebugBundleStatus { in_progress: true, latest_path: None, in_progress_counter: 1 };
        Ok(())
    }

    /// Records the end of a bundle: nothing in progress, and the bundle's path if it was created.
    pub fn finish(&mut self, path: Option<String>)
        ensures
            *final(self) == finished_status(path),
    {
        *self = DebugBundleStatus { in_progress: false, latest_path: path, in_progress_counter: 0 };
    }
}

/// Bundles never overlap: after a successful claim, the next claim is refused.
pub proof fn lemma_claims_exclude_each_other(status: DebugBundleStatus)
    requires
        claim_spec(status).1 is Ok,
    ensures
        claim_spec(claim_spec(status).0).1 == Err::<(), DebugBundleError>(DebugBundleError::InProgress),
{
}

/// A whole creation of a bundle from the status `start`, ending with the bundle at `path` (none if
/// it failed): refused with nothing changed while another bundle is in progress; else the status
/// shows exactly one bundle in progress for the whole run, refusing every other creation meanwhile,
/// and then nothing in progress with the new path, so that the next creation may start.
pub proof fn lemma_bundle_creation_run(start: DebugBundleStatus, path: Option<String>)
    ensures
        start.in_progress ==> claim_spec(start) == (start, Err::<(), DebugBundleError>(DebugBundleError::InProgress)),
        !start.in_progress ==> {
            &&& claim_spec(start) == (claimed_status(), Ok::<(), DebugBundleError>(()))
            &&& claim_spec(claimed_status()).1 == Err::<(), DebugBundleError>(DebugBundleError::InProgress)
            &&& claim_spec(claimed_status()).0 == claimed_status()
            &&& !finished_status(path).in_progress && finished_status(path).latest_path == path
            &&& claim_spec(finished_status(path)).1 is Ok
        },
{
}

/// The state of the service's systemd unit.
#[derive(Debug, Clone, Copy, PartialEq, Eq, Structural)]
pub enum SystemdUnitStatus {
    NotInstalled,
    Unknown,
    Active,
    Activating,
    Reloading,
    Refreshing,
    Inactive,
    Failed,
    Deactivating,
}

/// How the service's socket could not be reached.
#[derive(Debug, Clone, Copy, PartialEq, Eq, Structural)]
pub enum ConnectFailure {
    NoListener,
    InsufficientPermissions,
}

/// Why the service cannot be reached, from the state of its unit and how the socket failed:
/// the unit's state explains it when it is not running; a running unit that refuses this user is
/// a permission problem of `current_user`.
pub fn classify_unreachable(
    unit: SystemdUnitStatus,
    failure: ConnectFailure,
    current_user: Option<String>,
) -> (r: LinuxServiceDegradation)
    ensures
        unit == SystemdUnitStatus::NotInstalled ==> r is UnitNotInstalled,
        (unit == SystemdUnitStatus::Unknown || unit == SystemdUnitStatus::Active) ==> match failure {
            ConnectFailure::InsufficientPermissions => r matches LinuxServiceDegradation::SocketPermissionDenied {
                user,
            } && user == current_user,
            ConnectFailure::NoListener => r is Unknown,
        },
        (unit == SystemdUnitStatus::Activating || unit == SystemdUnitStatus::Reloading || unit
            == SystemdUnitStatus::Refreshing) ==> r is UnitActivating,
        (unit == SystemdUnitStatus::Inactive || unit == SystemdUnitStatus::Failed || unit
            == SystemdUnitStatus::Deactivating) ==> r is UnitInactive,
{
    match unit {
        SystemdUnitStatus::NotInstalled => LinuxServiceDegradation::UnitNotInstalled,
        SystemdUnitStatus::Unknown | SystemdUnitStatus::Active => match failure {
            ConnectFailure::InsufficientPermissions => LinuxServiceDegradation::SocketPermissionDenied { user: current_user },
            ConnectFailure::NoListener => LinuxServiceDegradation::Unknown,
        },
        SystemdUnitStatus::Activating | SystemdUnitStatus::Reloading | SystemdUnitStatus::Refreshing => {
            LinuxServiceDegradation::UnitActivating
        },
        SystemdUnitStatus::Inactive | SystemdUnitStatus::Failed | SystemdUnitStatus::Deactivating => {
            LinuxServiceDegradation::UnitInactive
        },
    }
}

/// Whether `c` has the Unicode property White_Space, by which `str::trim` strips characters.
pub open spec fn is_white_space(c: char) -> bool {
    ('\u{9}' <= c && c <= '\u{d}') || c == ' ' || c == '\u{85}' || c == '\u{a0}' || c == '\u{1680}' || ('\u{2000}'
        <= c && c <= '\u{200a}') || c == '\u{2028}' || c == '\u{2029}' || c == '\u{202f}' || c == '\u{205f}' || c
        == '\u{3000}'
}

/// `s` without its leading and trailing white space, as `str::trim` gives it.
pub open spec fn trimmed(s: Seq<char>) -> Seq<char>
    decreases s.len(),
{
    if s.len() == 0 {
        s
    } else if is_white_space(s[0]) {
        trimmed(s.drop_first())
    } else if is_white_space(s.last()) {
        trimmed(s.drop_last())
    } else {
        s
    }
}

fn is_white_space_char(c: char) -> (r: bool)
    ensures
        r == is_white_space(c),
{
    ('\u{9}' <= c && c <= '\u{d}') || c == ' ' || c == '\u{85}' || c == '\u{a0}' || c == '\u{1680}' || ('\u{2000}'
        <= c && c <= '\u{200a}') || c == '\u{2028}' || c == '\u{2029}' || c == '\u{202f}' || c == '\u{205f}' || c
        == '\u{3000}'
}

/// `s` without its leading and trailing white space.
pub fn trim(s: &str) -> (r: &str)
    ensures
        r@ == trimmed(s@),
{
    let len = s.unicode_len();
    proof {
        assert(s@.subrange(0, len as int) =~= s@);
    }
    let mut start: usize = 0;
    while start < len && is_white_space_char(s.get_char(start))
        invariant
            len == s@.len(),
            start <= len,
            trimmed(s@) == trimmed(s@.subrange(start as int, len as int)),
        decreases len - start,
    {
        proof {
            let sub = s@.subrange(start as int, len as int);
            assert(sub.drop_first() =~= s@.subrange(start + 1, len as int));
        }
        start = start + 1;
    }
    let mut end: usize = len;
    while end > start && is_white_space_char(s.get_char(end - 1))
        invariant
            len == s@.len(),
            start <= end <= len,
            start < len ==> !is_white_space(s@[start as int]),
            trimmed(s@) == trimmed(s@.subrange(start as int, end as int)),
        decreases end - start,
    {
        proof {
            let sub = s@.subrange(start as int, end as int);
            assert(sub[0] == s@[start as int]);
            assert(sub.drop_last() =~= s@.subrange(start as int, end - 1));
        }
        end = end - 1;
    }
    proof {
        let sub = s@.subrange(start as int, end as int);
        if sub.len() > 0 {
            assert(sub[0] == s@[start as int]);
            assert(sub.last() == s@[end - 1]);
        }
    }
    s.substring_char(start, end)
}

/// Whether an installed app of version `installed_version` is another release than the running
/// one, of version `running_version`.
pub fn version_differs(installed_version: &str, running_version: &str) -> (r: bool)
    ensures
        r == (installed_version@ != running_version@),
{
    !str_equal(installed_version, running_version)
}

/// Whether the installed app, which answered `version` with `version_output`, is another release
/// than the running one: its answer, without surrounding whitespace, is not `running_version`.
pub fn installed_version_differs(version_output: &str, running_version: &str) -> (r: bool)
    ensures
        r == (trimmed(version_output@) != running_version@),
{
    let installed_version = trim(version_output);
    version_differs(installed_version, running_version)
}

} // verus!
