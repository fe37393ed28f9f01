//! Headless Wi-Fi provisioning: scan for networks, serve a captive portal
//! from a self-hosted access point on the same radio, then join the network
//! the user picked. This crate holds the decisions; the program around it
//! performs the I/O they call for.
pub mod ap;
pub mod audio;
pub mod config;
pub mod connect;
pub mod embed;
pub mod error;
pub mod mock;
pub mod orchestrator;
pub mod sanitizer;
pub mod scan;
pub mod ssid;
pub mod structs;
pub mod supplicant;
pub mod text;
pub mod web;
