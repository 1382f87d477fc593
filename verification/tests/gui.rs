use obscuravpn_client::dns::{resolution_from_cache, DnsResolver, Resolution};
use obscuravpn_client::linux::dirs::xdg_base_dir;
use obscuravpn_client::ui_config::{ColorScheme, UiConfig};
use obscuravpn_client::debug_archive::http::HttpTask;
use obscuravpn_client::debug_bundle::command::{truncated_bytes, DebugTaskCommandExitStatus};
use obscuravpn_client::debug_bundle::populate_tasks::{debug_task_plan, ping_command, task_file_name, to_decimal, DebugTaskPlan};
use obscuravpn_client::debug_bundle::task::TaskResult;
use obscuravpn_client::gui::navigation::{app_url_action, row_index_of, view_at_row_index, view_icon_name, AppUrlAction};
use obscuravpn_client::linux::ipc::{
    check_header_version, group_refresh_warranted, is_group_member, socket_connect_error, LinuxIpcError, LinuxIpcHeader,
    SocketConnectFailure,
};
use obscuravpn_client::linux::status::{installed_version_differs, trim, version_differs, DebugBundleStatus, NavigationView, UpdaterStatus};
use obscuravpn_client::manager_cmd::ManagerCmdErrorCode;

#[test]
fn navigation_rows_follow_sidebar_order() {
    let all = NavigationView::all();
    assert_eq!(all.len(), 7);
    for (i, view) in all.iter().enumerate() {
        assert_eq!(view_at_row_index(i as i32), Some(*view));
        assert_eq!(row_index_of(*view), i as i32);
    }
    assert_eq!(view_at_row_index(-1), None);
    assert_eq!(view_at_row_index(7), None);
    assert_eq!(view_at_row_index(1), Some(NavigationView::Location));
    assert_eq!(view_icon_name(NavigationView::Developer), "obscura-developer-symbolic");
    assert_eq!(view_icon_name(NavigationView::Connection), "obscura-connection-symbolic");
}

#[test]
fn app_urls_route_to_views() {
    assert_eq!(app_url_action("obscuravpn", ""), AppUrlAction::Open);
    assert_eq!(app_url_action("obscuravpn", "/open"), AppUrlAction::Open);
    assert_eq!(app_url_action("obscuravpn", "/account"), AppUrlAction::Navigate(NavigationView::Account));
    assert_eq!(app_url_action("obscuravpn", "/manage-subscription"), AppUrlAction::Navigate(NavigationView::Account));
    assert_eq!(app_url_action("obscuravpn", "/location"), AppUrlAction::Navigate(NavigationView::Location));
    assert_eq!(app_url_action("obscuravpn", "/payment-succeeded"), AppUrlAction::PaymentSucceeded);
    assert_eq!(app_url_action("obscuravpn", "/elsewhere"), AppUrlAction::UnknownPath);
    assert_eq!(app_url_action("https", "/account"), AppUrlAction::UnexpectedScheme);
}

#[test]
fn ipc_socket_failures_map_to_errors() {
    assert!(matches!(socket_connect_error(SocketConnectFailure::NotFound), LinuxIpcError::NoListener));
    assert!(matches!(socket_connect_error(SocketConnectFailure::ConnectionRefused), LinuxIpcError::NoListener));
    assert!(matches!(socket_connect_error(SocketConnectFailure::PermissionDenied), LinuxIpcError::InsufficientPermissions));
    assert!(matches!(socket_connect_error(SocketConnectFailure::Other), LinuxIpcError::Other));
}

#[test]
fn ipc_header_version_must_match() {
    assert!(check_header_version(LinuxIpcHeader { version: "v1.2".to_owned() }, "v1.2").is_ok());
    match check_header_version(LinuxIpcHeader { version: "v1.1".to_owned() }, "v1.2") {
        Err(LinuxIpcError::VersionMismatch { service_version, app_version }) => {
            assert_eq!(service_version, "v1.1");
            assert_eq!(app_version, "v1.2");
        }
        other => panic!("expected a version mismatch, got {other:?}"),
    }
}

#[test]
fn group_refresh_only_for_permission_errors() {
    assert!(group_refresh_warranted(&Err(LinuxIpcError::InsufficientPermissions)));
    assert!(!group_refresh_warranted(&Err(LinuxIpcError::NoListener)));
    assert!(!group_refresh_warranted(&Ok(Ok(()))));
    assert!(!group_refresh_warranted(&Ok(Err(ManagerCmdErrorCode::Other))));
    let members = vec!["alice".to_owned(), "bob".to_owned()];
    assert!(is_group_member(&members, "bob"));
    assert!(!is_group_member(&members, "carol"));
    assert!(!is_group_member(&[], "alice"));
}

#[test]
fn ping_command_pings_twice() {
    let (program, args) = ping_command("1.1.1.1", None);
    assert_eq!(program, "ping");
    assert_eq!(args, ["-c", "2", "-W", "2", "1.1.1.1"]);
    let (_, args) = ping_command("2606:4700:4700::1111", Some(51820));
    assert_eq!(args, ["-c", "2", "-W", "2", "2606:4700:4700::1111", "-m", "51820"]);
}

#[test]
fn decimal_rendering() {
    assert_eq!(to_decimal(0), "0");
    assert_eq!(to_decimal(7), "7");
    assert_eq!(to_decimal(10), "10");
    assert_eq!(to_decimal(u32::MAX), "4294967295");
}

#[test]
fn debug_task_results() {
    let ok: TaskResult<u8> = TaskResult::Success(3);
    assert_eq!(ok.get(), Some(&3));
    assert_eq!(TaskResult::<u8>::Timeout.get(), None);
    assert_eq!(TaskResult::<u8>::Failure("boom".to_owned()).get(), None);
    assert_eq!(
        DebugTaskCommandExitStatus::from_code_and_signal(Some(1), Some(9)),
        Some(DebugTaskCommandExitStatus::Code(1))
    );
    assert_eq!(
        DebugTaskCommandExitStatus::from_code_and_signal(None, Some(9)),
        Some(DebugTaskCommandExitStatus::Signal(9))
    );
    assert_eq!(DebugTaskCommandExitStatus::from_code_and_signal(None, None), None);
    assert_eq!(truncated_bytes(0), None);
    assert_eq!(truncated_bytes(12), Some(12));
    let http = HttpTask::new();
    assert!(http.body.is_none() && http.status_code.is_none());
}

#[test]
fn status_defaults() {
    assert_eq!(UpdaterStatus::default(), UpdaterStatus::Uninitiated);
    let bundle = DebugBundleStatus::default();
    assert!(!bundle.in_progress);
    assert_eq!(bundle.latest_path, None);
    assert_eq!(bundle.in_progress_counter, 0);
}

#[test]
fn xdg_dirs_prefer_variable_then_home() {
    assert_eq!(xdg_base_dir(Some("/xdg".to_owned()), Some("/home/u".to_owned()), &[".config"]), Some("/xdg".to_owned()));
    assert_eq!(xdg_base_dir(Some(String::new()), Some("/home/u".to_owned()), &[".config"]), Some("/home/u/.config".to_owned()));
    assert_eq!(xdg_base_dir(None, Some("/home/u/".to_owned()), &[".local", "state"]), Some("/home/u/.local/state".to_owned()));
    assert_eq!(xdg_base_dir(None, Some(String::new()), &[".config"]), None);
    assert_eq!(xdg_base_dir(None, None, &[".config"]), None);
}

#[test]
fn ui_config_defaults_to_auto_scheme() {
    assert_eq!(UiConfig::default().color_scheme, ColorScheme::Auto);
    assert_eq!(ColorScheme::default(), ColorScheme::Auto);
}

#[test]
fn dns_answers_from_cache_when_it_can() {
    assert!(matches!(resolution_from_cache(vec![1u32, 2]), Resolution::Cached(v) if v == vec![1, 2]));
    assert!(matches!(resolution_from_cache(Vec::<u32>::new()), Resolution::AwaitResolver));
    let resolver = DnsResolver::new(5u8);
    assert_eq!(resolver.client_state, 5);
}

#[test]
fn installed_version_is_compared_without_surrounding_whitespace() {
    assert!(!installed_version_differs("0.1.2\n", "0.1.2"));
    assert!(!installed_version_differs("  0.1.2 \r\n", "0.1.2"));
    assert!(installed_version_differs("0.1.3\n", "0.1.2"));
    assert!(installed_version_differs("", "0.1.2"));
    assert!(version_differs("0.1.2 ", "0.1.2"));
    assert!(!version_differs("0.1.2", "0.1.2"));
}

#[test]
fn debug_bundle_runs_the_listed_tasks_in_order() {
    let tasks = debug_task_plan(Some(51820), "api.example.net");
    assert_eq!(tasks.len(), 15);
    let names: Vec<&str> = tasks
        .iter()
        .map(|t| match t {
            DebugTaskPlan::Command { name, .. } | DebugTaskPlan::Dns { name, .. } | DebugTaskPlan::Http { name, .. } => name.as_str(),
        })
        .collect();
    assert_eq!(
        names,
        vec![
            "ping-cloudflare-ipv4",
            "ping-google-ipv4",
            "ping-cloudflare-ipv6",
            "ping-google-ipv6",
            "dns-apple",
            "dns-google",
            "dns-obscura-backend",
            "http-apple",
            "http-apple-nosni",
            "http-google",
            "http-google-nosni",
            "http-obscura-backend",
            "http-obscura-backend-nosni",
            "http-obscura-backend-sni-apple",
            "http-obscura-backend-sni-google",
        ]
    );
    match &tasks[2] {
        DebugTaskPlan::Command { program, args, .. } => {
            assert_eq!(program, "ping");
            assert_eq!(args, &vec!["-c", "2", "-W", "2", "2606:4700:4700::1111", "-m", "51820"]);
        }
        _ => panic!("expected a ping"),
    }
    match &tasks[6] {
        DebugTaskPlan::Dns { host, .. } => assert_eq!(host, "api.example.net"),
        _ => panic!("expected a resolution"),
    }
    match &tasks[12] {
        DebugTaskPlan::Http { url, backend_addrs, sni, fwmark, .. } => {
            assert_eq!(url, "https://v1.api.prod.obscura.net/api/ping");
            assert!(*backend_addrs && !*sni);
            assert_eq!(*fwmark, Some(51820));
        }
        _ => panic!("expected a fetch"),
    }
    match &tasks[7] {
        DebugTaskPlan::Http { backend_addrs, sni, .. } => assert!(!*backend_addrs && *sni),
        _ => panic!("expected a fetch"),
    }
    let without_mark = debug_task_plan(None, "api.example.net");
    match &without_mark[0] {
        DebugTaskPlan::Command { args, .. } => assert_eq!(args, &vec!["-c", "2", "-W", "2", "1.1.1.1"]),
        _ => panic!("expected a ping"),
    }
}

#[test]
fn task_results_are_stored_by_name_and_side() {
    assert_eq!(task_file_name("dns-apple", "service"), "dns-apple-service.task.json");
    assert_eq!(task_file_name("http-google-nosni", "ui"), "http-google-nosni-ui.task.json");
}

#[test]
fn trim_strips_unicode_white_space_like_std() {
    for s in ["  a b  ", "\u{3000}x\u{a0}", "\t\n", "", "\u{200b}y", "z\u{85}", "\u{2029} q \u{202f}"] {
        assert_eq!(trim(s), s.trim());
    }
}
