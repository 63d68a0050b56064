//! Manages a local Clash to remote Mihomo/Clash SSH tunnel.
pub mod autostart;
pub mod clash;
pub mod config;
pub mod error;
pub mod init;
pub mod report;
pub mod state;
pub mod support;
pub mod tunnel;

pub use support as utils;
pub use support::{path, prompt};
pub use tunnel::process;
