//! Host-side library for Clevetura keyboards: HID and BLE framing of the
//! firmware and protobuf protocols, configuration, and settings logic.

pub mod ble;
pub mod codec;
pub mod config;
pub mod json;
pub mod keyboard;
pub mod proto;
pub mod text;
pub mod settings_cli;
pub mod settings_page;
pub mod hid;
pub mod profiles;
pub mod slider_actions;
pub mod applet;
pub mod cli;
pub mod report;
