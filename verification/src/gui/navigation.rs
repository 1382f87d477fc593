//! Navigation of the main window: the sidebar rows and the app URLs that open a view.

use crate::linux::status::{navigation_views, NavigationView};
use crate::network_config::str_equal;
use vstd::prelude::*;

verus! {

/// The icon name of a view's sidebar row.
pub open spec fn view_icon_name_spec(view: NavigationView) -> Seq<char> {
    match view {
        NavigationView::Connection => "obscura-connection-symbolic"@,
        NavigationView::Location => "obscura-location-symbolic"@,
        NavigationView::Account => "obscura-account-symbolic"@,
        NavigationView::Settings => "obscura-settings-symbolic"@,
        NavigationView::Help => "obscura-help-symbolic"@,
        NavigationView::About => "obscura-about-symbolic"@,
        NavigationView::Developer => "obscura-developer-symbolic"@,
    }
}

pub fn view_icon_name(view: NavigationView) -> (r: &'static str)
    ensures
        r@ == view_icon_name_spec(view),
{
    match view {
        NavigationView::Connection => "obscura-connection-symbolic",
        NavigationView::Location => "obscura-location-symbolic",
        NavigationView::Account => "obscura-account-symbolic",
        NavigationView::Settings => "obscura-settings-symbolic",
        NavigationView::Help => "obscura-help-symbolic",
        NavigationView::About => "obscura-about-symbolic",
        NavigationView::Developer => "obscura-developer-symbolic",
    }
}

/// The view of the sidebar row at `index`, if there is one.
pub fn view_at_row_index(index: i32) -> (r: Option<NavigationView>)
    ensures
        r == (if 0 <= index < navigation_views().len() {
            Some(navigation_views()[index as int])
        } else {
            None
        }),
{
    let views = NavigationView::all();
    if index < 0 {
        return None;
    }
    let i = index as usize;
    if i < views.len() {
        Some(views[i])
    } else {
        None
    }
}

/// The index of the sidebar row of `view`.
pub fn row_index_of(view: NavigationView) -> (r: i32)
    ensures
        0 <= r < navigation_views().len(),
        navigation_views()[r as int] == view,
{
    match view {
        NavigationView::Connection => 0,
        NavigationView::Location => 1,
        NavigationView::Account => 2,
        NavigationView::Settings => 3,
        NavigationView::Help => 4,
        NavigationView::About => 5,
        NavigationView::Developer => 6,
    }
}

/// Each view has its own sidebar row: the row of a view shows that view.
pub proof fn lemma_row_round_trip(view: NavigationView, index: int)
    requires
        0 <= index < navigation_views().len(),
        navigation_views()[index] == view,
    ensures
        forall|j: int| 0 <= j < navigation_views().len() && navigation_views()[j] == view ==> j == index,
{
}

/// What opening an app URL does.
#[derive(Debug, Clone, Copy, PartialEq, Eq, Structural)]
pub enum AppUrlAction {
    /// Only bring the window to the front.
    Open,
    /// Show a view.
    Navigate(NavigationView),
    /// Tell the web view that a payment succeeded.
    PaymentSucceeded,
    /// The URL's scheme is not the app's.
    UnexpectedScheme,
    /// The URL's path is unknown.
    UnknownPath,
}

/// What opening the app URL with scheme `scheme` and path `path` does.
pub open spec fn app_url_action_spec(scheme: Seq<char>, path: Seq<char>) -> AppUrlAction {
    if scheme != "obscuravpn"@ {
        AppUrlAction::UnexpectedScheme
    } else if path == ""@ || path == "/"@ || path == "/open"@ {
        AppUrlAction::Open
    } else if path == "/account"@ || path == "/manage-subscription"@ {
        AppUrlAction::Navigate(NavigationView::Account)
    } else if path == "/location"@ {
        AppUrlAction::Navigate(NavigationView::Location)
    } else if path == "/payment-succeeded"@ {
        AppUrlAction::PaymentSucceeded
    } else {
        AppUrlAction::UnknownPath
    }
}

/// What opening the app URL with scheme `scheme` and path `path` does.
pub fn app_url_action(scheme: &str, path: &str) -> (r: AppUrlAction)
    ensures
        r == app_url_action_spec(scheme@, path@),
{
    if !str_equal(scheme, "obscuravpn") {
        AppUrlAction::UnexpectedScheme
    } else if str_equal(path, "") || str_equal(path, "/") || str_equal(path, "/open") {
        AppUrlAction::Open
    } else if str_equal(path, "/account") || str_equal(path, "/manage-subscription") {
        AppUrlAction::Navigate(NavigationView::Account)
    } else if str_equal(path, "/location") {
        AppUrlAction::Navigate(NavigationView::Location)
    } else if str_equal(path, "/payment-succeeded") {
        AppUrlAction::PaymentSucceeded
    } else {
        AppUrlAction::UnknownPath
    }
}

} // verus!
