use provisioner::supplicant::{
    classify_reply, decimal_text, parse_network_id, parse_wpa_state, ReplyVerdict, WpaCommand,
};

#[test]
fn reply_classification() {
    assert_eq!(classify_reply("<3>CTRL-EVENT-SCAN-STARTED"), ReplyVerdict::Unsolicited);
    assert_eq!(classify_reply("FAIL"), ReplyVerdict::Failure);
    assert_eq!(classify_reply("fail"), ReplyVerdict::Failure);
    assert_eq!(classify_reply("FAIL-BUSY"), ReplyVerdict::Failure);
    assert_eq!(classify_reply(""), ReplyVerdict::Failure);
    assert_eq!(classify_reply("OK"), ReplyVerdict::Reply);
    assert_eq!(classify_reply("0"), ReplyVerdict::Reply);
    assert_eq!(classify_reply("failure"), ReplyVerdict::Reply);
}

#[test]
fn network_id_replies() {
    assert_eq!(parse_network_id("0"), Some(0));
    assert_eq!(parse_network_id(" 12\n"), Some(12));
    assert_eq!(parse_network_id("+5"), Some(5));
    assert_eq!(parse_network_id("4294967295"), Some(u32::MAX));
    assert_eq!(parse_network_id("4294967296"), None);
    assert_eq!(parse_network_id("FAIL"), None);
    assert_eq!(parse_network_id(""), None);
    assert_eq!(parse_network_id("-1"), None);
}

#[test]
fn command_texts() {
    let set = WpaCommand::SetNetwork { id: 3, field: "psk".to_string(), value: "\"pw\"".to_string() };
    assert_eq!(set.text(), "SET_NETWORK 3 psk \"pw\"");
    assert_eq!(WpaCommand::EnableNetwork { id: 12 }.text(), "ENABLE_NETWORK 12");
    assert_eq!(WpaCommand::RemoveNetwork { id: 0 }.text(), "REMOVE_NETWORK 0");
    assert_eq!(WpaCommand::Scan.text(), "SCAN");
    assert_eq!(WpaCommand::ScanResults.text(), "SCAN_RESULTS");
    assert_eq!(WpaCommand::Status.text(), "STATUS");
    assert_eq!(WpaCommand::AddNetwork.text(), "ADD_NETWORK");
    assert_eq!(WpaCommand::SaveConfig.text(), "SAVE_CONFIG");
}

#[test]
fn decimal_numbers() {
    assert_eq!(decimal_text(0), "0");
    assert_eq!(decimal_text(10), "10");
    assert_eq!(decimal_text(u32::MAX), "4294967295");
}

#[test]
fn wpa_state_from_status() {
    let status = "bssid=aa:bb:cc:dd:ee:ff\nssid=Home\nwpa_state=COMPLETED\nip_address=10.0.0.2\n";
    assert_eq!(parse_wpa_state(status), b"COMPLETED".to_vec());
    assert_eq!(parse_wpa_state("wpa_state=SCANNING\r\nx=y"), b"SCANNING".to_vec());
    assert_eq!(parse_wpa_state("ssid=x\n"), Vec::<u8>::new());
    assert_eq!(parse_wpa_state("wpa_state=A=B"), b"A=B".to_vec());
    assert_eq!(parse_wpa_state("wpa_state2=X\nwpa_state=Y"), b"Y".to_vec());
}
