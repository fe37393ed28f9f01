use provisioner::ap::{
    address_add_ok, address_del_ok, ap_network_script, channel_to_frequency, dhcp_server_args, ssid_hex, ApState, TearDownStep,
};
use provisioner::config::{supplicant_conf, ApConfig};

fn config(psk: &str, wpa: u8, channel: u8, mode: &str) -> ApConfig {
    ApConfig {
        ssid: "ProvisionerAP".to_string(),
        psk: psk.to_string(),
        bind_addr: "192.168.4.1:80".to_string(),
        gateway_cidr: "192.168.4.1/24".to_string(),
        interface_name: "wlan0".to_string(),
        dhcp_range: "192.168.4.10,192.168.4.100,12h".to_string(),
        hostapd_conf_path: "/tmp/hostapd.conf".to_string(),
        wpa_conf_path: "/tmp/wpa.conf".to_string(),
        wpa_ctrl_interface: "/var/run/wpa_supplicant".to_string(),
        wpa_group: "netdev".to_string(),
        wpa_update_config: true,
        hostapd_hw_mode: mode.to_string(),
        hostapd_channel: channel,
        hostapd_wpa: wpa,
        hostapd_wpa_key_mgmt: "WPA-PSK".to_string(),
        hostapd_wpa_pairwise: "CCMP".to_string(),
        hostapd_rsn_pairwise: "CCMP".to_string(),
    }
}

#[test]
fn channel_frequencies() {
    assert_eq!(channel_to_frequency(1, "g"), Some(2412));
    assert_eq!(channel_to_frequency(6, "b"), Some(2437));
    assert_eq!(channel_to_frequency(13, "g"), Some(2472));
    assert_eq!(channel_to_frequency(14, "b"), Some(2484));
    assert_eq!(channel_to_frequency(15, "g"), None);
    assert_eq!(channel_to_frequency(0, "g"), None);
    assert_eq!(channel_to_frequency(36, "a"), Some(5180));
    assert_eq!(channel_to_frequency(64, "a"), Some(5320));
    assert_eq!(channel_to_frequency(100, "a"), Some(5500));
    assert_eq!(channel_to_frequency(144, "a"), Some(5720));
    assert_eq!(channel_to_frequency(149, "a"), Some(5745));
    assert_eq!(channel_to_frequency(165, "a"), Some(5825));
    assert_eq!(channel_to_frequency(38, "a"), None);
    assert_eq!(channel_to_frequency(6, "a"), None);
    assert_eq!(channel_to_frequency(6, "n"), None);
}

#[test]
fn ssid_in_hexadecimal() {
    assert_eq!(ssid_hex("Home"), "486f6d65");
    assert_eq!(ssid_hex("café"), "636166c3a9");
    assert_eq!(ssid_hex(""), "");
}

fn texts(c: &ApConfig, id: u32) -> Vec<(String, bool)> {
    ap_network_script(c, id).iter().map(|s| (s.command.text(), s.must_succeed)).collect()
}

#[test]
fn ap_script_with_wpa2() {
    let c = config("s3cret!!", 2, 6, "g");
    let t = texts(&c, 1);
    let expected: Vec<(String, bool)> = vec![
        ("SET_NETWORK 1 mode 2".to_string(), true),
        ("SET_NETWORK 1 ssid 50726f766973696f6e65724150".to_string(), true),
        ("SET_NETWORK 1 proto RSN".to_string(), true),
        ("SET_NETWORK 1 key_mgmt WPA-PSK".to_string(), true),
        ("SET_NETWORK 1 pairwise CCMP".to_string(), true),
        ("SET_NETWORK 1 psk \"s3cret!!\"".to_string(), true),
        ("SET_NETWORK 1 freq 2437".to_string(), false),
        ("ENABLE_NETWORK 1".to_string(), true),
    ];
    assert_eq!(t, expected);
}

#[test]
fn ap_script_protocols_and_open_network() {
    let t = texts(&config("password", 1, 36, "a"), 0);
    assert_eq!(t[2].0, "SET_NETWORK 0 proto WPA");
    assert_eq!(t[6].0, "SET_NETWORK 0 freq 5180");
    let t = texts(&config("password", 3, 200, "a"), 0);
    assert_eq!(t[2].0, "SET_NETWORK 0 proto WPA RSN");
    assert_eq!(t.len(), 7);
    let t = texts(&config("", 2, 99, "g"), 4);
    let expected: Vec<(String, bool)> = vec![
        ("SET_NETWORK 4 mode 2".to_string(), true),
        ("SET_NETWORK 4 ssid 50726f766973696f6e65724150".to_string(), true),
        ("SET_NETWORK 4 key_mgmt NONE".to_string(), true),
        ("ENABLE_NETWORK 4".to_string(), true),
    ];
    assert_eq!(t, expected);
}

#[test]
fn dhcp_sidecar_arguments() {
    let args = dhcp_server_args(&config("", 2, 6, "g"));
    assert_eq!(
        args,
        vec![
            "--interface=wlan0",
            "--dhcp-range=192.168.4.10,192.168.4.100,12h",
            "--address=/#/192.168.4.1",
            "--no-resolv",
            "--no-hosts",
            "--no-daemon",
        ]
    );
    let mut c = config("", 2, 6, "g");
    c.gateway_cidr = "10.0.0.1".to_string();
    assert_eq!(dhcp_server_args(&c)[2], "--address=/#/10.0.0.1");
}

#[test]
fn supplicant_config_file() {
    let mut c = config("", 2, 6, "g");
    assert_eq!(
        supplicant_conf(&c),
        "ctrl_interface=DIR=/var/run/wpa_supplicant GROUP=netdev\nupdate_config=1\n"
    );
    c.wpa_update_config = false;
    assert_eq!(
        supplicant_conf(&c),
        "ctrl_interface=DIR=/var/run/wpa_supplicant GROUP=netdev\nupdate_config=0\n"
    );
}

#[test]
fn sidecar_needs_the_network() {
    let mut ap = ApState::new();
    assert!(!ap.dhcp_started());
    assert!(!ap.dhcp_running());
    ap.address_added();
    ap.network_enabled(7);
    assert!(ap.dhcp_started());
    assert!(ap.is_up());
    assert!(ap.dhcp_running() && ap.network_id().is_some());
}

#[test]
fn tear_down_order_and_refusal() {
    let mut ap = ApState::new();
    ap.address_added();
    ap.network_enabled(2);
    assert!(ap.dhcp_started());
    assert_eq!(
        ap.tear_down_plan(),
        vec![TearDownStep::StopDhcp, TearDownStep::RemoveNetwork(2), TearDownStep::DeleteAddress]
    );
    assert!(!ap.released(TearDownStep::RemoveNetwork(2)));
    assert_eq!(ap.network_id(), Some(2));
    for step in ap.tear_down_plan() {
        assert!(ap.released(step));
    }
    assert!(!ap.is_up());
    assert_eq!(ap.network_id(), None);
    assert!(!ap.dhcp_running());
    assert_eq!(ap.tear_down_plan(), vec![TearDownStep::DeleteAddress]);
}

#[test]
fn address_command_outcomes() {
    assert!(address_add_ok(true, b""));
    assert!(address_add_ok(false, b"RTNETLINK answers: File exists\n"));
    assert!(!address_add_ok(false, b"Error: any valid prefix is expected\n"));
    assert!(address_del_ok(false, b"RTNETLINK answers: Cannot assign requested address\n"));
    assert!(!address_del_ok(false, b"Cannot find device \"wlan9\"\n"));
    assert!(address_del_ok(true, b"whatever"));
}
