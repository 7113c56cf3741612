//! Decision logic of the CloudpilotEmu desktop and mobile shell: release
//! channels and where they load from, the keys of the persistent store, the
//! webview loading protocol, network-session consent and the scripts injected
//! into the application webview.

pub mod app_channel;
pub mod store_keys;
pub mod url;
pub mod platform;
pub mod network;
pub mod state;
pub mod dns;
pub mod loading_controller;
pub mod init_script;
