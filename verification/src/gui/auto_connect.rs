//! Connecting at start-up, when the user enabled it.

use crate::exit_selection::ExitSelector;
use crate::manager::{TunnelArgs, VpnStatus};
use vstd::prelude::*;

verus! {

/// The arguments to connect with at start-up: only with auto-connect enabled and no tunnel
/// active yet, and then to the last selected exit.
pub fn auto_connect_args(auto_connect: bool, vpn_status: &VpnStatus, last_exit: &ExitSelector) -> (r: Option<TunnelArgs>)
    ensures
        r is Some <==> (auto_connect && *vpn_status is Disconnected),
        r matches Some(args) ==> args.exit == *last_exit,
{
    if !auto_connect {
        return None;
    }
    match vpn_status {
        VpnStatus::Disconnected {} => {
            Some(TunnelArgs { exit: last_exit.copy() })
        },
        _ => None,
    }
}

} // verus!
