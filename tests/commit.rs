use provisioner::config::ApConfig;
use provisioner::connect::{
    after_connect_commands, commit_timed_out, dhcp_client_args, link_state, poll_verdict,
    sta_network_script, CommitVerdict, LinkState,
};
use provisioner::structs::ConnectionRequest;

fn config(update: bool) -> ApConfig {
    ApConfig {
        ssid: "ProvisionerAP".to_string(),
        psk: String::new(),
        bind_addr: "192.168.4.1:80".to_string(),
        gateway_cidr: "192.168.4.1/24".to_string(),
        interface_name: "wlan0".to_string(),
        dhcp_range: "192.168.4.10,192.168.4.100".to_string(),
        hostapd_conf_path: String::new(),
        wpa_conf_path: "/tmp/wpa.conf".to_string(),
        wpa_ctrl_interface: "/var/run/wpa_supplicant".to_string(),
        wpa_group: "root".to_string(),
        wpa_update_config: update,
        hostapd_hw_mode: "g".to_string(),
        hostapd_channel: 6,
        hostapd_wpa: 2,
        hostapd_wpa_key_mgmt: "WPA-PSK".to_string(),
        hostapd_wpa_pairwise: "CCMP".to_string(),
        hostapd_rsn_pairwise: "CCMP".to_string(),
    }
}

#[test]
fn station_script_with_password() {
    let req = ConnectionRequest { ssid: "Home".to_string(), password: "s3cret".to_string() };
    let t: Vec<String> = sta_network_script(&req, 5).iter().map(|c| c.text()).collect();
    assert_eq!(
        t,
        vec!["SET_NETWORK 5 ssid 486f6d65", "SET_NETWORK 5 psk \"s3cret\"", "ENABLE_NETWORK 5"]
    );
}

#[test]
fn station_script_for_open_network() {
    let req = ConnectionRequest { ssid: "Cafe".to_string(), password: String::new() };
    let t: Vec<String> = sta_network_script(&req, 0).iter().map(|c| c.text()).collect();
    assert_eq!(
        t,
        vec!["SET_NETWORK 0 ssid 43616665", "SET_NETWORK 0 key_mgmt NONE", "ENABLE_NETWORK 0"]
    );
}

#[test]
fn link_states() {
    assert_eq!(link_state(b"COMPLETED"), LinkState::Completed);
    for s in ["ASSOCIATING", "ASSOCIATED", "4WAY_HANDSHAKE", "GROUP_HANDSHAKE", "SCANNING"] {
        assert_eq!(link_state(s.as_bytes()), LinkState::InProgress);
    }
    for s in ["DISCONNECTED", "INACTIVE", "INTERFACE_DISABLED"] {
        assert_eq!(link_state(s.as_bytes()), LinkState::Idle);
    }
    assert_eq!(link_state(b"AUTHENTICATING"), LinkState::Unknown);
    assert_eq!(link_state(b""), LinkState::Unknown);
    assert_eq!(link_state(b"completed"), LinkState::Unknown);
}

#[test]
fn poll_verdicts() {
    assert_eq!(poll_verdict(Some("wpa_state=COMPLETED\n"), 2000), CommitVerdict::Connected);
    assert_eq!(poll_verdict(Some("wpa_state=ASSOCIATING\n"), 20000), CommitVerdict::KeepPolling);
    assert_eq!(poll_verdict(Some("wpa_state=DISCONNECTED\n"), 2000), CommitVerdict::KeepPolling);
    assert_eq!(poll_verdict(Some("wpa_state=DISCONNECTED\n"), 4999), CommitVerdict::KeepPolling);
    assert_eq!(poll_verdict(Some("wpa_state=DISCONNECTED\n"), 5000), CommitVerdict::Failed);
    assert_eq!(poll_verdict(Some("wpa_state=INACTIVE"), 8000), CommitVerdict::Failed);
    assert_eq!(poll_verdict(Some("wpa_state=NEW_STATE"), 8000), CommitVerdict::KeepPolling);
    assert_eq!(poll_verdict(Some("nothing here"), 8000), CommitVerdict::KeepPolling);
    assert_eq!(poll_verdict(None, 8000), CommitVerdict::KeepPolling);
}

#[test]
fn commit_budget() {
    assert!(!commit_timed_out(0));
    assert!(!commit_timed_out(30_000));
    assert!(commit_timed_out(30_001));
}

#[test]
fn success_path_commands() {
    let saved: Vec<String> = after_connect_commands(&config(true)).iter().map(|c| c.text()).collect();
    assert_eq!(saved, vec!["SAVE_CONFIG"]);
    assert!(after_connect_commands(&config(false)).is_empty());
    assert_eq!(dhcp_client_args(&config(false)), vec!["-i", "wlan0", "-q", "-n"]);
}
