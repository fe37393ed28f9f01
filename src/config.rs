//! Configuration records, loaded once at start-up and read-only afterwards.
use vstd::prelude::*;
use vstd::string::*;

verus! {

/// Everything the access point and the supplicant are set up from.
#[derive(Debug, Clone)]
pub struct ApConfig {
    pub ssid: String,
    pub psk: String,
    /// `ip:port` that the HTTP server binds to.
    pub bind_addr: String,
    /// Gateway address with prefix length, such as `192.168.4.1/24`.
    pub gateway_cidr: String,
    pub interface_name: String,
    pub dhcp_range: String,
    pub hostapd_conf_path: String,
    pub wpa_conf_path: String,
    /// Directory of the supplicant's control sockets.
    pub wpa_ctrl_interface: String,
    pub wpa_group: String,
    pub wpa_update_config: bool,
    /// `b`, `g` or `a`.
    pub hostapd_hw_mode: String,
    pub hostapd_channel: u8,
    /// 1 for WPA, 2 for WPA2 (RSN), anything else for both.
    pub hostapd_wpa: u8,
    pub hostapd_wpa_key_mgmt: String,
    pub hostapd_wpa_pairwise: String,
    pub hostapd_rsn_pairwise: String,
}

/// Which sound file goes with each event.
#[derive(Debug, Clone)]
pub struct AudioFilesConfig {
    pub ap_started: String,
    pub connection_started: String,
    pub connection_success: String,
    pub connection_failed: String,
}

/// Audio output device (`auto` for the default one) and sound files.
#[derive(Debug, Clone)]
pub struct AudioConfig {
    pub device: String,
    pub files: AudioFilesConfig,
}

/// The whole configuration.
#[derive(Debug, Clone)]
pub struct AppConfig {
    pub ap: ApConfig,
    pub audio: Option<AudioConfig>,
}

/// The supplicant configuration file: the control socket's directory and
/// group, and whether the supplicant may write its configuration back.
pub open spec fn supplicant_conf_spec(dir: Seq<char>, group: Seq<char>, update: bool) -> Seq<char> {
    "ctrl_interface=DIR="@ + dir + " GROUP="@ + group + "\nupdate_config="@ + (if update {
        "1"@
    } else {
        "0"@
    }) + "\n"@
}

/// Text of the supplicant configuration file written at start-up.
pub fn supplicant_conf(config: &ApConfig) -> (r: String)
    ensures
        r@ == supplicant_conf_spec(
            config.wpa_ctrl_interface@,
            config.wpa_group@,
            config.wpa_update_config,
        ),
{
    let mut s = String::from_str("ctrl_interface=DIR=");
    s.append(config.wpa_ctrl_interface.as_str());
    s.append(" GROUP=");
    s.append(config.wpa_group.as_str());
    s.append("\nupdate_config=");
    if config.wpa_update_config {
        s.append("1");
    } else {
        s.append("0");
    }
    s.append("\n");
    s
}

} // verus!
