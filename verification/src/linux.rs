//! The Linux client: IPC with the service, status shown in the GUI, and the tray.

pub mod dirs;
pub mod ipc;
pub mod status;
pub mod tray;
