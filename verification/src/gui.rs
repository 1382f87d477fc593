//! The Linux GUI: error codes shown to the user and the navigation of the main window.

pub mod error;
pub mod navigation;
pub mod webview;
pub mod auto_connect;
