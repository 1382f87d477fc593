//! Verified core of the Obscura VPN client: route computation, liveness probing,
//! wire-format parsing and the small decision procedures of the client.

pub mod int_helper;
pub mod ip_network;
pub mod local_network;
pub mod wake_instant;
pub mod liveness;
pub mod wg_control_message_header;
pub mod os;
pub mod ext_types;
pub mod quicwg;
pub mod network_config;
pub mod errors;
pub mod manager_cmd;
pub mod linux;
pub mod gui;
pub mod exit_selection;
pub mod debug_bundle;
pub mod debug_archive;
pub mod virt;
pub mod net;
pub mod manager;
pub mod tunnel_state;
pub mod ui_config;
pub mod dns;
pub mod relay_selection;
