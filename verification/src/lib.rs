//! Decision logic of a small remote-desktop launcher: which window to show,
//! what the host list holds, and what is handed to the credential vault and
//! to the remote-desktop client.

pub mod failure;
pub mod hosts;
pub mod panel;
pub mod scan;
pub mod secret;
pub mod session;
pub mod table;
pub mod text;
