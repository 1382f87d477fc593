//! The tray: its status, icon and menu entries for the service's state, the animation of its
//! icon while connecting, the requests it sends to the main window, and its location menu.

use crate::exit_selection::{city_key, CityCode, CountryCode, ExitSelector, OneExit};
use crate::linux::status::NEVPNStatus;
use crate::manager::VpnStatus;
use vstd::prelude::*;

verus! {

/// What the main window should show.
#[derive(Debug, Clone, Copy, PartialEq, Eq, Structural)]
pub enum ShowTarget {
    MainWindow,
    LocationView,
}

/// A request from the tray to the main window.
#[derive(Debug, Clone, Copy, PartialEq, Eq, Structural)]
pub enum TrayRequest {
    Show(ShowTarget),
    Quit,
}

/// A city the user pinned.
#[derive(Debug, Clone)]
pub struct PinnedLocation {
    pub country_code: String,
    pub city_code: String,
}

/// An entry of the tray's location menu.
#[derive(Debug)]
pub enum LocationMenuItem {
    /// A location to connect to: activating it connects with `selector`.
    Location { label: String, checked: bool, selector: ExitSelector },
    /// A heading or hint that cannot be activated.
    Label(String),
    Separator,
    /// Opens the location view of the main window.
    MoreLocations,
}

/// The location menu: its entries, and whether it can be used.
#[derive(Debug)]
pub struct LocationSubmenu {
    pub enabled: bool,
    pub items: Vec<LocationMenuItem>,
}

/// The characters that `str::to_uppercase` gives for `s`.
pub uninterp spec fn uppercase(s: Seq<char>) -> Seq<char>;

/// `str::to_uppercase`, as the named result says.
#[verifier::external_body]
fn to_uppercase(s: &str) -> (r: String)
    ensures
        r@ == uppercase(s@),
{
    s.to_uppercase()
}

/// The label of a city: its name, a comma, and its country code in upper case.
pub open spec fn city_label(city_name: Seq<char>, country_code: Seq<char>) -> Seq<char> {
    city_name + ", "@ + uppercase(country_code)
}

fn make_city_label(city_name: &str, country_code: &str) -> (r: String)
    ensures
        r@ == city_label(city_name@, country_code@),
{
    let mut label = String::from_str(city_name);
    label.append(", ");
    let upper = to_uppercase(country_code);
    label.append(upper.as_str());
    label
}

/// The name of the city `(country, city)` in the exit list `exits`: that of the last exit in it.
pub open spec fn city_name_in(exits: Seq<OneExit>, country: Seq<char>, city: Seq<char>) -> Option<Seq<char>>
    decreases exits.len(),
{
    if exits.len() == 0 {
        None
    } else if city_key(exits.last().city_code) == (country, city) {
        Some(exits.last().city_name@)
    } else {
        city_name_in(exits.drop_last(), country, city)
    }
}

fn lookup_city_name<'a>(exits: &'a [OneExit], country: &str, city: &str) -> (r: Option<&'a String>)
    ensures
        match r {
            Some(name) => city_name_in(exits@, country@, city@) == Some(name@),
            None => city_name_in(exits@, country@, city@) is None,
        },
{
    let mut i = exits.len();
    assert(exits@.subrange(0, i as int) =~= exits@);
    while i > 0
        invariant
            i <= exits@.len(),
            city_name_in(exits@, country@, city@) == city_name_in(exits@.subrange(0, i as int), country@, city@),
        decreases i,
    {
        let exit = &exits[i - 1];
        proof {
            assert(exits@.subrange(0, i as int).drop_last() =~= exits@.subrange(0, i - 1));
            assert(exits@.subrange(0, i as int).last() == exits@[i - 1]);
        }
        if crate::network_config::str_equal(exit.city_code.country_code.0.as_str(), country)
            && crate::network_config::str_equal(exit.city_code.city_code.as_str(), city) {
            return Some(&exit.city_name);
        }
        i = i - 1;
    }
    proof {
        assert(exits@.subrange(0, 0) =~= Seq::<OneExit>::empty());
    }
    None
}

/// Whether the selector asks for the city `(country, city)`.
pub open spec fn selects_city(selector: ExitSelector, country: Seq<char>, city: Seq<char>) -> bool {
    selector matches ExitSelector::City { city_code } && city_key(city_code) == (country, city)
}

fn selector_is_city(selector: &ExitSelector, country_code: &str, city_code: &str) -> (r: bool)
    ensures
        r == selects_city(*selector, country_code@, city_code@),
{
    match selector {
        ExitSelector::City { city_code: selected } => crate::network_config::str_equal(
            selected.country_code.0.as_str(),
            country_code,
        ) && crate::network_config::str_equal(selected.city_code.as_str(), city_code),
        _ => false,
    }
}

/// A menu entry as plain values: a location (label, checked, and the city it selects, `None` for
/// any exit), a label, a separator, or the entry that opens the location view.
pub enum MenuEntry {
    Location(Seq<char>, bool, Option<(Seq<char>, Seq<char>)>),
    Label(Seq<char>),
    Separator,
    MoreLocations,
}

pub open spec fn entry_of(item: LocationMenuItem) -> MenuEntry {
    match item {
        LocationMenuItem::Location { label, checked, selector } => MenuEntry::Location(
            label@,
            checked,
            match selector {
                ExitSelector::City { city_code } => Some(city_key(city_code)),
                _ => None,
            },
        ),
        LocationMenuItem::Label(l) => MenuEntry::Label(l@),
        LocationMenuItem::Separator => MenuEntry::Separator,
        LocationMenuItem::MoreLocations => MenuEntry::MoreLocations,
    }
}

/// Whether every location entry selects what its kind says: a city entry selects a city, the
/// quick connect entry any exit.
pub open spec fn selectors_ok(items: Seq<LocationMenuItem>) -> bool {
    forall|i: int|
        0 <= i < items.len() ==> (#[trigger] items[i] matches LocationMenuItem::Location { selector, .. } ==> (
        selector is Any || selector is City))
}

/// The name shown for the pinned city `p`: its name from the exit list; its code when no list is
/// known; `None` (the pin is not shown) when the list does not have it.
pub open spec fn pinned_name(p: PinnedLocation, exits: Option<Seq<OneExit>>) -> Option<Seq<char>> {
    match exits {
        Some(list) => city_name_in(list, p.country_code@, p.city_code@),
        None => Some(p.city_code@),
    }
}

/// The entries for the pinned cities `pinned`: one checked when it is the last selection.
pub open spec fn pinned_entries(
    pinned: Seq<PinnedLocation>,
    exits: Option<Seq<OneExit>>,
    last_exit: Option<ExitSelector>,
) -> Seq<MenuEntry>
    decreases pinned.len(),
{
    if pinned.len() == 0 {
        Seq::empty()
    } else {
        let p = pinned.last();
        let earlier = pinned_entries(pinned.drop_last(), exits, last_exit);
        match pinned_name(p, exits) {
            None => earlier,
            Some(name) => earlier.push(
                MenuEntry::Location(
                    city_label(name, p.country_code@),
                    last_exit matches Some(s) && selects_city(s, p.country_code@, p.city_code@),
                    Some((p.country_code@, p.city_code@)),
                ),
            ),
        }
    }
}

/// Whether the last selection is one of the shown pinned cities.
pub open spec fn last_exit_is_pinned(
    pinned: Seq<PinnedLocation>,
    exits: Option<Seq<OneExit>>,
    last_exit: Option<ExitSelector>,
) -> bool {
    exists|i: int|
        0 <= i < pinned.len() && #[trigger] pinned_name(pinned[i], exits) is Some && (last_exit matches Some(s)
            && selects_city(s, pinned[i].country_code@, pinned[i].city_code@))
}

/// The entries of the location menu: quick connect (checked when the last selection was any
/// exit), the pinned cities or a hint that they will appear, the last selected city if it is not
/// pinned, and the way to more locations.
pub open spec fn location_entries(
    pinned: Seq<PinnedLocation>,
    exits: Option<Seq<OneExit>>,
    last_exit: Option<ExitSelector>,
) -> Seq<MenuEntry> {
    let pins = pinned_entries(pinned, exits, last_exit);
    let head = seq![
        MenuEntry::Location("Quick Connect"@, last_exit matches Some(s) && s is Any, None),
        MenuEntry::Label("Pinned Locations"@),
    ] + pins + (if pins.len() == 0 {
        seq![MenuEntry::Label("Pinned locations will appear here"@)]
    } else {
        Seq::empty()
    });
    let current = match last_exit {
        Some(ExitSelector::City { city_code }) => if !last_exit_is_pinned(pinned, exits, last_exit) {
            let name = match exits {
                Some(list) => match city_name_in(list, city_code.country_code.0@, city_code.city_code@) {
                    Some(n) => n,
                    None => city_code.city_code@,
                },
                None => city_code.city_code@,
            };
            seq![
                MenuEntry::Label("Current Selection"@),
                MenuEntry::Location(
                    city_label(name, city_code.country_code.0@),
                    true,
                    Some(city_key(city_code)),
                ),
            ]
        } else {
            Seq::empty()
        },
        _ => Seq::empty(),
    };
    head + current + seq![MenuEntry::Separator, MenuEntry::MoreLocations]
}

fn copy_city_code(c: &CityCode) -> (r: CityCode)
    ensures
        r == *c,
{
    CityCode { country_code: CountryCode(c.country_code.0.clone()), city_code: c.city_code.clone() }
}

fn text(s: &str) -> (r: String)
    ensures
        r@ == s@,
{
    String::from_str(s)
}

/// The tray's location menu. `last_exit` is the last selection of the service's status,
/// `pinned_locations` the user's pinned cities, `exits` the exit list if it is known; the menu
/// can be used when the exit list is known and the service is healthy.
pub fn location_submenu(
    last_exit: Option<&ExitSelector>,
    pinned_locations: &[PinnedLocation],
    exits: Option<&[OneExit]>,
    service_healthy: bool,
) -> (r: LocationSubmenu)
    ensures
        r.enabled == (exits is Some && service_healthy),
        r.items@.map_values(|i: LocationMenuItem| entry_of(i)) == location_entries(
            pinned_locations@,
            match exits {
                Some(e) => Some(e@),
                None => None,
            },
            match last_exit {
                Some(s) => Some(*s),
                None => None,
            },
        ),
        selectors_ok(r.items@),
{
    let ghost exits_spec: Option<Seq<OneExit>> = match exits {
        Some(e) => Some(e@),
        None => None,
    };
    let ghost last_spec: Option<ExitSelector> = match last_exit {
        Some(s) => Some(*s),
        None => None,
    };
    let mut items: Vec<LocationMenuItem> = Vec::new();
    let quick_connect_checked = match last_exit {
        Some(ExitSelector::Any {}) => true,
        _ => false,
    };
    items.push(
        LocationMenuItem::Location {
            label: text("Quick Connect"),
            checked: quick_connect_checked,
            selector: ExitSelector::Any {},
        },
    );
    items.push(LocationMenuItem::Label(text("Pinned Locations")));
    let ghost head_len = items@.len();
    let mut shown_any_pinned = false;
    let mut last_exit_is_pinned_found = false;
    let mut k: usize = 0;
    while k < pinned_locations.len()
        invariant
            k <= pinned_locations@.len(),
            head_len == 2,
            items@.len() >= 2,
            items@.subrange(0, 2).map_values(|i: LocationMenuItem| entry_of(i)) == seq![
                MenuEntry::Location("Quick Connect"@, last_spec matches Some(s) && s is Any, None),
                MenuEntry::Label("Pinned Locations"@),
            ],
            items@.subrange(2, items@.len() as int).map_values(|i: LocationMenuItem| entry_of(i))
                == pinned_entries(pinned_locations@.subrange(0, k as int), exits_spec, last_spec),
            shown_any_pinned == (pinned_entries(pinned_locations@.subrange(0, k as int), exits_spec, last_spec).len()
                > 0),
            last_exit_is_pinned_found == last_exit_is_pinned(
                pinned_locations@.subrange(0, k as int),
                exits_spec,
                last_spec,
            ),
            selectors_ok(items@),
            exits_spec == (match exits {
                Some(e) => Some(e@),
                None => None::<Seq<OneExit>>,
            }),
            last_spec == (match last_exit {
                Some(s) => Some(*s),
                None => None::<ExitSelector>,
            }),
        decreases pinned_locations@.len() - k,
    {
        let pinned = &pinned_locations[k];
        let ghost prev = pinned_locations@.subrange(0, k as int);
        let ghost next = pinned_locations@.subrange(0, k + 1);
        proof {
            assert(next.drop_last() =~= prev);
            assert(next.last() == pinned_locations@[k as int]);
        }
        let name_opt: Option<String> = match exits {
            Some(list) => match lookup_city_name(list, pinned.country_code.as_str(), pinned.city_code.as_str()) {
                Some(n) => Some(n.clone()),
                None => None,
            },
            None => Some(pinned.city_code.clone()),
        };
        proof {
            assert(match name_opt {
                Some(n) => pinned_name(*pinned, exits_spec) == Some(n@),
                None => pinned_name(*pinned, exits_spec) is None,
            });
        }
        let ghost items_before = items@;
        match name_opt {
            None => {
                proof {
                    assert(pinned_entries(next, exits_spec, last_spec) == pinned_entries(prev, exits_spec, last_spec));
                    assert forall|i: int|
                        0 <= i < next.len() && #[trigger] pinned_name(next[i], exits_spec) is Some && (last_spec matches Some(
                            s,
                        ) && selects_city(s, next[i].country_code@, next[i].city_code@)) implies 0 <= i < prev.len()
                        && pinned_name(prev[i], exits_spec) is Some && (last_spec matches Some(s) && selects_city(
                        s,
                        prev[i].country_code@,
                        prev[i].city_code@,
                    )) by {
                        assert(i != k);
                        assert(next[i] == prev[i]);
                    }
                    assert forall|i: int|
                        0 <= i < prev.len() && #[trigger] pinned_name(prev[i], exits_spec) is Some && (last_spec matches Some(
                            s,
                        ) && selects_city(s, prev[i].country_code@, prev[i].city_code@)) implies 0 <= i < next.len()
                        && pinned_name(next[i], exits_spec) is Some && (last_spec matches Some(s) && selects_city(
                        s,
                        next[i].country_code@,
                        next[i].city_code@,
                    )) by {
                        assert(next[i] == prev[i]);
                    }
                    assert(last_exit_is_pinned(next, exits_spec, last_spec) == last_exit_is_pinned(prev, exits_spec, last_spec));
                }
            },
            Some(name) => {
                let checked = match last_exit {
                    Some(selector) => selector_is_city(selector, pinned.country_code.as_str(), pinned.city_code.as_str()),
                    None => false,
                };
                let ghost found_before = last_exit_is_pinned_found;
                last_exit_is_pinned_found = last_exit_is_pinned_found || checked;
                let selector = ExitSelector::City {
                    city_code: CityCode {
                        country_code: CountryCode(pinned.country_code.clone()),
                        city_code: pinned.city_code.clone(),
                    },
                };
                let label = make_city_label(name.as_str(), pinned.country_code.as_str());
                items.push(LocationMenuItem::Location { label, checked, selector });
                shown_any_pinned = true;
                proof {
                    assert(items@.subrange(2, items@.len() as int) =~= items_before.subrange(2, items_before.len() as int).push(
                        items@.last(),
                    ));
                    assert(items@.subrange(0, 2) =~= items_before.subrange(0, 2));
                    assert(items@.subrange(2, items@.len() as int).map_values(|i: LocationMenuItem| entry_of(i))
                        =~= items_before.subrange(2, items_before.len() as int).map_values(|i: LocationMenuItem| entry_of(i)).push(
                        entry_of(items@.last()),
                    ));
                    assert(pinned_entries(next, exits_spec, last_spec) == pinned_entries(prev, exits_spec, last_spec).push(
                        entry_of(items@.last()),
                    ));
                    if checked {
                        assert(pinned_name(next[k as int], exits_spec) is Some);
                        assert(last_exit_is_pinned(next, exits_spec, last_spec));
                    }
                    assert forall|i: int|
                        0 <= i < prev.len() && #[trigger] pinned_name(prev[i], exits_spec) is Some && (last_spec matches Some(
                            s,
                        ) && selects_city(s, prev[i].country_code@, prev[i].city_code@)) implies 0 <= i < next.len()
                        && pinned_name(next[i], exits_spec) is Some && (last_spec matches Some(s) && selects_city(
                        s,
                        next[i].country_code@,
                        next[i].city_code@,
                    )) by {
                        assert(next[i] == prev[i]);
                    }
                    if !checked && !found_before {
                        assert forall|i: int|
                            0 <= i < next.len() && #[trigger] pinned_name(next[i], exits_spec) is Some && (last_spec matches Some(
                                s,
                            ) && selects_city(s, next[i].country_code@, next[i].city_code@)) implies false by {
                            if i < k {
                                assert(next[i] == prev[i]);
                                assert(pinned_name(prev[i], exits_spec) is Some);
                            }
                        }
                    }
                    assert(selectors_ok(items@)) by {
                        assert forall|i: int| 0 <= i < items@.len() implies (#[trigger] items@[i] matches LocationMenuItem::Location {
                            selector,
                            ..
                        } ==> (selector is Any || selector is City)) by {
                            if i < items_before.len() {
                                assert(items@[i] == items_before[i]);
                            }
                        }
                    }
                }
            },
        }
        k = k + 1;
    }
    proof {
        assert(pinned_locations@.subrange(0, k as int) =~= pinned_locations@);
    }
    let ghost pins_items = items@;
    if !shown_any_pinned {
        items.push(LocationMenuItem::Label(text("Pinned locations will appear here")));
    }
    let ghost head_items = items@;
    proof {
        assert(head_items.map_values(|i: LocationMenuItem| entry_of(i)) =~= seq![
            MenuEntry::Location("Quick Connect"@, last_spec matches Some(s) && s is Any, None),
            MenuEntry::Label("Pinned Locations"@),
        ] + pinned_entries(pinned_locations@, exits_spec, last_spec) + (if pinned_entries(
            pinned_locations@,
            exits_spec,
            last_spec,
        ).len() == 0 {
            seq![MenuEntry::Label("Pinned locations will appear here"@)]
        } else {
            Seq::empty()
        })) by {
            assert(pins_items =~= pins_items.subrange(0, 2) + pins_items.subrange(2, pins_items.len() as int));
        }
    }
    match last_exit {
        Some(ExitSelector::City { city_code }) => {
            if !last_exit_is_pinned_found {
                let name: String = match exits {
                    Some(list) => match lookup_city_name(
                        list,
                        city_code.country_code.0.as_str(),
                        city_code.city_code.as_str(),
                    ) {
                        Some(n) => n.clone(),
                        None => city_code.city_code.clone(),
                    },
                    None => city_code.city_code.clone(),
                };
                items.push(LocationMenuItem::Label(text("Current Selection")));
                let label = make_city_label(name.as_str(), city_code.country_code.0.as_str());
                items.push(
                    LocationMenuItem::Location {
                        label,
                        checked: true,
                        selector: ExitSelector::City { city_code: copy_city_code(city_code) },
                    },
                );
            }
        },
        _ => {},
    }
    let ghost current_items = items@;
    items.push(LocationMenuItem::Separator);
    items.push(LocationMenuItem::MoreLocations);
    proof {
        assert(items@.map_values(|i: LocationMenuItem| entry_of(i)) =~= location_entries(
            pinned_locations@,
            exits_spec,
            last_spec,
        ));
        assert forall|i: int| 0 <= i < items@.len() implies (#[trigger] items@[i] matches LocationMenuItem::Location {
            selector,
            ..
        } ==> (selector is Any || selector is City)) by {
            if i < head_items.len() {
                assert(items@[i] == head_items[i]);
                if i < pins_items.len() {
                    assert(head_items[i] == pins_items[i]);
                }
            }
        }
    }
    LocationSubmenu { enabled: exits.is_some() && service_healthy, items }
}

/// Where the tunnel is, as the tray shows it.
#[derive(Debug, Clone, Copy, PartialEq, Eq, Structural)]
pub enum VpnPhase {
    Disconnected,
    Connecting,
    Connected,
}

/// The phase of the VPN status `status`.
pub fn vpn_phase(status: &VpnStatus) -> (r: VpnPhase)
    ensures
        (r == VpnPhase::Disconnected) == (*status is Disconnected),
        (r == VpnPhase::Connecting) == (*status is Connecting),
        (r == VpnPhase::Connected) == (*status is Connected),
{
    match status {
        VpnStatus::Disconnected {} => VpnPhase::Disconnected,
        VpnStatus::Connecting { .. } => VpnPhase::Connecting,
        VpnStatus::Connected { .. } => VpnPhase::Connected,
    }
}

/// What the tray reads of the service's status: still starting, degraded, or healthy with the
/// tunnel in a phase.
#[derive(Debug, Clone, Copy, PartialEq, Eq, Structural)]
pub enum ServiceState {
    Initializing,
    Degraded,
    Healthy(VpnPhase),
}

/// The status item's own status: it asks for attention while the service is degraded.
#[derive(Debug, Clone, Copy, PartialEq, Eq, Structural)]
pub enum TrayStatus {
    Active,
    NeedsAttention,
}

/// The icon the tray shows; while connecting, a frame of the animation.
#[derive(Debug, Clone, Copy, PartialEq, Eq, Structural)]
pub enum TrayIcon {
    Disconnected,
    Connecting { frame: usize },
    Connected,
}

/// The menu entry that starts or stops the tunnel.
#[derive(Debug, Clone, Copy, PartialEq, Eq, Structural)]
pub enum TunnelMenuItem {
    /// "Connect", greyed out: the service cannot take the command.
    ConnectDisabled,
    Connect,
    Disconnect,
}

/// Frames of the connecting animation.
pub const CONNECTING_FRAMES: usize = 3;

pub fn tray_status(state: ServiceState) -> (r: TrayStatus)
    ensures
        (r == TrayStatus::NeedsAttention) == (state == ServiceState::Degraded),
{
    match state {
        ServiceState::Degraded => TrayStatus::NeedsAttention,
        ServiceState::Initializing | ServiceState::Healthy(_) => TrayStatus::Active,
    }
}

/// The icon for `state`, showing frame `connecting_frame` of the animation while connecting; an
/// unhealthy service shows as disconnected.
pub fn tray_icon(state: ServiceState, connecting_frame: usize) -> (r: TrayIcon)
    requires
        connecting_frame < CONNECTING_FRAMES,
    ensures
        r == (match state {
            ServiceState::Healthy(VpnPhase::Connecting) => TrayIcon::Connecting { frame: connecting_frame },
            ServiceState::Healthy(VpnPhase::Connected) => TrayIcon::Connected,
            _ => TrayIcon::Disconnected,
        }),
{
    match state {
        ServiceState::Healthy(VpnPhase::Connecting) => TrayIcon::Connecting { frame: connecting_frame },
        ServiceState::Healthy(VpnPhase::Connected) => TrayIcon::Connected,
        _ => TrayIcon::Disconnected,
    }
}

/// The entry that starts or stops the tunnel: connect when disconnected, disconnect while
/// connecting or connected, and a disabled connect while the service is not healthy.
pub fn tunnel_menu_item(state: ServiceState) -> (r: TunnelMenuItem)
    ensures
        r == (match state {
            ServiceState::Healthy(VpnPhase::Disconnected) => TunnelMenuItem::Connect,
            ServiceState::Healthy(_) => TunnelMenuItem::Disconnect,
            _ => TunnelMenuItem::ConnectDisabled,
        }),
{
    match state {
        ServiceState::Healthy(VpnPhase::Disconnected) => TunnelMenuItem::Connect,
        ServiceState::Healthy(_) => TunnelMenuItem::Disconnect,
        _ => TunnelMenuItem::ConnectDisabled,
    }
}

/// The animation of the tray icon: while connecting, each round shows the next frame and only
/// looks for a new status; otherwise each round waits for one.
pub struct TrayAnimation {
    /// Whether the last status was connecting.
    pub connecting: bool,
    /// The frame shown.
    pub frame: usize,
}

impl TrayAnimation {
    /// The frame is always one of the animation's.
    pub open spec fn wf(self) -> bool {
        self.frame < CONNECTING_FRAMES
    }

    /// The animation before any status: not connecting, first frame.
    pub fn new() -> (r: Self)
        ensures
            !r.connecting,
            r.frame == 0,
            r.wf(),
    {
        TrayAnimation { connecting: false, frame: 0 }
    }

    /// Starts a round: while connecting, advances to the next frame, wrapping around, and
    /// returns `true` (look for a new status without waiting); else shows the first frame and
    /// returns `false` (wait for the next status).
    pub fn start_round(&mut self) -> (poll_only: bool)
        requires
            old(self).wf(),
        ensures
            final(self).wf(),
            poll_only == old(self).connecting,
            final(self).connecting == old(self).connecting,
            final(self).frame == (if old(self).connecting {
                (old(self).frame + 1) % (CONNECTING_FRAMES as int)
            } else {
                0
            }),
    {
        if self.connecting {
            self.frame = (self.frame + 1) % CONNECTING_FRAMES;
            true
        } else {
            self.frame = 0;
            false
        }
    }

    /// Takes a new status into account: the animation runs while the tunnel is connecting.
    pub fn on_status(&mut self, os_vpn_status: NEVPNStatus)
        ensures
            final(self).connecting == (os_vpn_status == NEVPNStatus::Connecting),
            final(self).frame == old(self).frame,
    {
        self.connecting = match os_vpn_status {
            NEVPNStatus::Connecting => true,
            _ => false,
        };
    }
}

/// An entry of the tray's menu.
#[derive(Debug, Clone, Copy, PartialEq, Eq, Structural)]
pub enum TrayMenuEntry {
    /// A disabled label with the service's status line.
    StatusLine,
    Separator,
    /// The entry that starts or stops the tunnel.
    Tunnel(TunnelMenuItem),
    /// The location menu, as `location_submenu` builds it.
    Locations,
    /// `OPEN_MANAGER_LABEL`: shows the main window.
    OpenManager,
    /// A disabled label with the version of this build.
    SourceVersion,
    /// `QUIT_LABEL`: disconnects and quits.
    QuitAndDisconnect,
}

pub const OPEN_MANAGER_LABEL: &'static str = "Open Obscura Manager...";

pub const QUIT_LABEL: &'static str = "Quit and Disconnect";

/// The label of the entry that starts or stops the tunnel.
pub fn tunnel_menu_label(item: TunnelMenuItem) -> (r: &'static str)
    ensures
        r@ == (match item {
            TunnelMenuItem::Disconnect => "Disconnect"@,
            _ => "Connect"@,
        }),
{
    match item {
        TunnelMenuItem::Disconnect => "Disconnect",
        _ => "Connect",
    }
}

/// The tray's menu for `state`, in order: the status line, a separator, the entry that starts or
/// stops the tunnel, the locations, a separator, the entry that opens the main window, a
/// separator, the version, and the entry that quits.
pub open spec fn tray_menu_spec(state: ServiceState) -> Seq<TrayMenuEntry> {
    seq![
        TrayMenuEntry::StatusLine,
        TrayMenuEntry::Separator,
        TrayMenuEntry::Tunnel(
            match state {
                ServiceState::Healthy(VpnPhase::Disconnected) => TunnelMenuItem::Connect,
                ServiceState::Healthy(_) => TunnelMenuItem::Disconnect,
                _ => TunnelMenuItem::ConnectDisabled,
            },
        ),
        TrayMenuEntry::Locations,
        TrayMenuEntry::Separator,
        TrayMenuEntry::OpenManager,
        TrayMenuEntry::Separator,
        TrayMenuEntry::SourceVersion,
        TrayMenuEntry::QuitAndDisconnect,
    ]
}

/// The tray's menu for `state`, as `tray_menu_spec` lists it.
pub fn tray_menu(state: ServiceState) -> (r: Vec<TrayMenuEntry>)
    ensures
        r@ == tray_menu_spec(state),
{
    let mut entries: Vec<TrayMenuEntry> = Vec::new();
    entries.push(TrayMenuEntry::StatusLine);
    entries.push(TrayMenuEntry::Separator);
    entries.push(TrayMenuEntry::Tunnel(tunnel_menu_item(state)));
    entries.push(TrayMenuEntry::Locations);
    entries.push(TrayMenuEntry::Separator);
    entries.push(TrayMenuEntry::OpenManager);
    entries.push(TrayMenuEntry::Separator);
    entries.push(TrayMenuEntry::SourceVersion);
    entries.push(TrayMenuEntry::QuitAndDisconnect);
    assert(entries@ =~= tray_menu_spec(state));
    entries
}

/// The VPN status in Apple's terms that the GUI reports for the service state `state`: the
/// tunnel's phase while the service is healthy, else `Invalid`.
pub fn os_vpn_status(state: ServiceState) -> (r: NEVPNStatus)
    ensures
        r == (match state {
            ServiceState::Healthy(VpnPhase::Disconnected) => NEVPNStatus::Disconnected,
            ServiceState::Healthy(VpnPhase::Connecting) => NEVPNStatus::Connecting,
            ServiceState::Healthy(VpnPhase::Connected) => NEVPNStatus::Connected,
            _ => NEVPNStatus::Invalid,
        }),
{
    match state {
        ServiceState::Healthy(VpnPhase::Disconnected) => NEVPNStatus::Disconnected,
        ServiceState::Healthy(VpnPhase::Connecting) => NEVPNStatus::Connecting,
        ServiceState::Healthy(VpnPhase::Connected) => NEVPNStatus::Connected,
        _ => NEVPNStatus::Invalid,
    }
}

} // verus!
