use obscuravpn_client::exit_selection::{CityCode, CountryCode, ExitSelector, OneExit};
use obscuravpn_client::gui::webview::{
    command_reply, command_timeout_ms, not_implemented_message, debug_bundle_error_code, fix_outcome, start_tunnel_command, stop_tunnel_command, CommandRetry, JsonNumber, RetryStep,
    WebviewEvents, WebviewSignal,
};
use obscuravpn_client::manager::TunnelArgs;
use obscuravpn_client::gui::error::{LinuxErrorCode, LinuxFixErrorCode, LinuxIpcErrorCode};
use obscuravpn_client::linux::ipc::LinuxIpcError;
use obscuravpn_client::linux::status::{DebugBundleError, DebugBundleStatus};
use obscuravpn_client::linux::tray::{
    location_submenu, os_vpn_status, tray_icon, tray_menu, tray_status, tunnel_menu_item, tunnel_menu_label, TrayMenuEntry, vpn_phase, LocationMenuItem, PinnedLocation, ServiceState, TrayAnimation, TrayIcon,
    TrayStatus, TunnelMenuItem, VpnPhase,
};
use obscuravpn_client::linux::status::NEVPNStatus;
use obscuravpn_client::manager::VpnStatus;
use obscuravpn_client::manager_cmd::ManagerCmdErrorCode;

fn exit(country: &str, city: &str, name: &str) -> OneExit {
    OneExit {
        id: format!("{country}-{city}"),
        city_code: CityCode { country_code: CountryCode(country.to_owned()), city_code: city.to_owned() },
        datacenter_id: 1,
        tier: 0,
        city_name: name.to_owned(),
        provider_name: "Obscura".to_owned(),
    }
}

fn pin(country: &str, city: &str) -> PinnedLocation {
    PinnedLocation { country_code: country.to_owned(), city_code: city.to_owned() }
}

fn render(items: &[LocationMenuItem]) -> Vec<String> {
    items
        .iter()
        .map(|item| match item {
            LocationMenuItem::Location { label, checked, .. } => format!("[{}] {label}", if *checked { "x" } else { " " }),
            LocationMenuItem::Label(label) => format!("-- {label}"),
            LocationMenuItem::Separator => "----".to_owned(),
            LocationMenuItem::MoreLocations => "More Locations...".to_owned(),
        })
        .collect()
}

#[test]
fn location_menu_lists_pinned_cities() {
    let exits = vec![exit("de", "ber", "Berlin"), exit("us", "nyc", "New York")];
    let pinned = vec![pin("de", "ber"), pin("fr", "par"), pin("us", "nyc")];
    let last = ExitSelector::City { city_code: CityCode { country_code: CountryCode("us".to_owned()), city_code: "nyc".to_owned() } };
    let menu = location_submenu(Some(&last), &pinned, Some(&exits), true);
    assert!(menu.enabled);
    assert_eq!(
        render(&menu.items),
        ["[ ] Quick Connect", "-- Pinned Locations", "[ ] Berlin, DE", "[x] New York, US", "----", "More Locations..."]
    );
}

#[test]
fn location_menu_shows_unpinned_selection() {
    let exits = vec![exit("se", "sto", "Stockholm")];
    let last = ExitSelector::City { city_code: CityCode { country_code: CountryCode("se".to_owned()), city_code: "sto".to_owned() } };
    let menu = location_submenu(Some(&last), &[], Some(&exits), false);
    assert!(!menu.enabled);
    assert_eq!(
        render(&menu.items),
        [
            "[ ] Quick Connect",
            "-- Pinned Locations",
            "-- Pinned locations will appear here",
            "-- Current Selection",
            "[x] Stockholm, SE",
            "----",
            "More Locations..."
        ]
    );
}

#[test]
fn location_menu_without_exit_list_uses_codes() {
    let menu = location_submenu(Some(&ExitSelector::Any {}), &[pin("de", "ber")], None, true);
    assert!(!menu.enabled);
    assert_eq!(render(&menu.items), ["[x] Quick Connect", "-- Pinned Locations", "[ ] ber, DE", "----", "More Locations..."]);
}

#[test]
fn command_replies_map_errors() {
    assert_eq!(command_reply(Ok(Ok("{}".to_owned()))), Ok("{}".to_owned()));
    assert_eq!(command_reply(Ok(Err(ManagerCmdErrorCode::TunnelInactive))), Err(LinuxErrorCode::ManagerCmd(ManagerCmdErrorCode::TunnelInactive)));
    assert_eq!(command_reply(Err(LinuxIpcError::NoListener)), Err(LinuxErrorCode::Ipc(LinuxIpcErrorCode::NoListener)));
    assert_eq!(debug_bundle_error_code(DebugBundleError::InProgress), LinuxErrorCode::DebugBundleInProgress);
    assert_eq!(fix_outcome(Ok(()), true), Ok(true));
    assert_eq!(fix_outcome(Err(LinuxFixErrorCode::AuthorizationDenied), true), Err(LinuxErrorCode::Fix(LinuxFixErrorCode::AuthorizationDenied)));
}

#[test]
fn start_retries_only_transport_failures() {
    let mut retry = CommandRetry::new(true);
    assert!(matches!(retry.after_attempt(Err(LinuxErrorCode::Other)), RetryStep::RetryAfterSecond));
    assert!(matches!(
        retry.after_attempt(Err(LinuxErrorCode::ManagerCmd(ManagerCmdErrorCode::ApiError))),
        RetryStep::Reply(Err(LinuxErrorCode::ManagerCmd(ManagerCmdErrorCode::ApiError)))
    ));
}

#[test]
fn commands_give_up_after_ten_attempts() {
    let mut retry = CommandRetry::new(false);
    let mut attempts = 0;
    loop {
        attempts += 1;
        match retry.after_attempt(Err(LinuxErrorCode::Ipc(LinuxIpcErrorCode::NoListener))) {
            RetryStep::RetryAfterSecond => continue,
            RetryStep::RetryNow => panic!("only a timeout is retried at once"),
            RetryStep::Reply(reply) => {
                assert_eq!(reply, Err(LinuxErrorCode::Ipc(LinuxIpcErrorCode::NoListener)));
                break;
            }
        }
    }
    assert_eq!(attempts, 10);
    let mut retry = CommandRetry::new(false);
    assert!(matches!(retry.after_attempt(Ok("{}".to_owned())), RetryStep::Reply(Ok(_))));
}

#[test]
fn payment_success_waits_for_ready_page() {
    let mut events = WebviewEvents::new();
    assert!(!events.on_signal(WebviewSignal::PaymentSucceeded));
    assert!(events.on_signal(WebviewSignal::CommandReceived));
    assert!(!events.on_signal(WebviewSignal::CommandReceived));
    assert!(events.on_signal(WebviewSignal::PaymentSucceeded));
    assert!(!events.on_signal(WebviewSignal::LoadStarted));
    assert!(!events.on_signal(WebviewSignal::PaymentSucceeded));
    assert!(events.on_signal(WebviewSignal::CommandReceived));
}

#[test]
fn debug_bundles_do_not_overlap() {
    let mut status = DebugBundleStatus::default();
    assert!(status.try_claim().is_ok());
    assert!(status.in_progress);
    assert_eq!(status.try_claim(), Err(DebugBundleError::InProgress));
    status.finish(Some("/tmp/bundle.zip".to_owned()));
    assert!(!status.in_progress);
    assert_eq!(status.latest_path.as_deref(), Some("/tmp/bundle.zip"));
    assert!(status.try_claim().is_ok());
}

#[test]
fn tray_shows_service_state() {
    assert_eq!(vpn_phase(&VpnStatus::Disconnected {}), VpnPhase::Disconnected);
    assert_eq!(tray_status(ServiceState::Degraded), TrayStatus::NeedsAttention);
    assert_eq!(tray_status(ServiceState::Initializing), TrayStatus::Active);
    assert_eq!(tray_status(ServiceState::Healthy(VpnPhase::Connected)), TrayStatus::Active);
    assert_eq!(tray_icon(ServiceState::Degraded, 0), TrayIcon::Disconnected);
    assert_eq!(tray_icon(ServiceState::Healthy(VpnPhase::Connecting), 2), TrayIcon::Connecting { frame: 2 });
    assert_eq!(tray_icon(ServiceState::Healthy(VpnPhase::Connected), 1), TrayIcon::Connected);
    assert_eq!(tunnel_menu_item(ServiceState::Initializing), TunnelMenuItem::ConnectDisabled);
    assert_eq!(tunnel_menu_item(ServiceState::Healthy(VpnPhase::Disconnected)), TunnelMenuItem::Connect);
    assert_eq!(tunnel_menu_item(ServiceState::Healthy(VpnPhase::Connecting)), TunnelMenuItem::Disconnect);
}

#[test]
fn tray_icon_animates_while_connecting() {
    let mut animation = TrayAnimation::new();
    assert!(!animation.start_round());
    assert_eq!(animation.frame, 0);
    animation.on_status(NEVPNStatus::Connecting);
    let frames: Vec<usize> = (0..4)
        .map(|_| {
            assert!(animation.start_round());
            animation.frame
        })
        .collect();
    assert_eq!(frames, vec![1, 2, 0, 1]);
    animation.on_status(NEVPNStatus::Connected);
    assert!(!animation.start_round());
    assert_eq!(animation.frame, 0);
}

#[test]
fn timed_out_attempts_retry_at_once_and_end_in_other() {
    let mut retry = CommandRetry::new(false);
    for _ in 0..9 {
        assert!(matches!(retry.after_timeout(), RetryStep::RetryNow));
    }
    assert!(matches!(retry.after_timeout(), RetryStep::Reply(Err(LinuxErrorCode::Other))));
    let mut retry = CommandRetry::new(false);
    assert!(matches!(retry.after_timeout(), RetryStep::RetryNow));
    assert!(matches!(retry.after_attempt(Ok("{}".to_owned())), RetryStep::Reply(Ok(_))));
}

#[test]
fn command_timeouts_must_be_unsigned() {
    assert_eq!(command_timeout_ms(None), Ok(None));
    assert_eq!(command_timeout_ms(Some(JsonNumber::PosInt(2500))), Ok(Some(2500)));
    assert_eq!(command_timeout_ms(Some(JsonNumber::NegInt(-1))), Err(LinuxErrorCode::Other));
    assert_eq!(command_timeout_ms(Some(JsonNumber::Float)), Err(LinuxErrorCode::Other));
}

#[test]
fn tunnel_commands_from_the_page() {
    assert!(matches!(start_tunnel_command(Err(())), Err(LinuxErrorCode::Other)));
    let cmd = start_tunnel_command(Ok(TunnelArgs::default())).unwrap();
    assert!(cmd.args.is_some());
    assert_eq!(cmd.active, Some(true));
    let stop = stop_tunnel_command();
    assert!(stop.args.is_none());
    assert_eq!(stop.active, Some(false));
}

#[test]
fn tray_menu_has_nine_entries_in_order() {
    let menu = tray_menu(ServiceState::Healthy(VpnPhase::Connected));
    assert_eq!(
        menu,
        vec![
            TrayMenuEntry::StatusLine,
            TrayMenuEntry::Separator,
            TrayMenuEntry::Tunnel(TunnelMenuItem::Disconnect),
            TrayMenuEntry::Locations,
            TrayMenuEntry::Separator,
            TrayMenuEntry::OpenManager,
            TrayMenuEntry::Separator,
            TrayMenuEntry::SourceVersion,
            TrayMenuEntry::QuitAndDisconnect,
        ]
    );
    assert_eq!(tray_menu(ServiceState::Degraded)[2], TrayMenuEntry::Tunnel(TunnelMenuItem::ConnectDisabled));
    assert_eq!(tunnel_menu_label(TunnelMenuItem::ConnectDisabled), "Connect");
    assert_eq!(tunnel_menu_label(TunnelMenuItem::Disconnect), "Disconnect");
}

#[test]
fn unknown_commands_are_not_implemented() {
    assert_eq!(not_implemented_message("{\"frob\":{}}"), "Not implemented: '{\"frob\":{}}'");
}

#[test]
fn gui_reports_vpn_status_only_for_a_healthy_service() {
    assert_eq!(os_vpn_status(ServiceState::Healthy(VpnPhase::Connecting)), NEVPNStatus::Connecting);
    assert_eq!(os_vpn_status(ServiceState::Healthy(VpnPhase::Connected)), NEVPNStatus::Connected);
    assert_eq!(os_vpn_status(ServiceState::Degraded), NEVPNStatus::Invalid);
    assert_eq!(os_vpn_status(ServiceState::Initializing), NEVPNStatus::Invalid);
}
