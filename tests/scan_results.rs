use provisioner::scan::{parse_scan_results, signal_percent};
use provisioner::ssid::unescape_wpa_ssid;

const HEADER: &str = "bssid / frequency / signal level / flags / ssid\n";

#[test]
fn unescaping_ssid_in_scan_row() {
    let text = format!("{}aa:bb:cc:dd:ee:ff\t2412\t-60\t[WPA2-PSK-CCMP][ESS]\tcaf\\xc3\\xa9\n", HEADER);
    let nets = parse_scan_results(&text).unwrap();
    assert_eq!(nets.len(), 1);
    assert_eq!(nets[0].ssid, "café");
}

#[test]
fn signal_mapping_in_scan_rows() {
    let text = format!(
        "{}a\t2412\t-75\t[ESS]\tA\nb\t2412\t-110\t[ESS]\tB\nc\t2412\t0\t[ESS]\tC\n",
        HEADER
    );
    let nets = parse_scan_results(&text).unwrap();
    assert_eq!(nets.len(), 3);
    assert_eq!(nets[0].signal, 50);
    assert_eq!(nets[1].signal, 0);
    assert_eq!(nets[2].signal, 100);
}

#[test]
fn signal_percent_formula() {
    assert_eq!(signal_percent(-100), 0);
    assert_eq!(signal_percent(-50), 100);
    assert_eq!(signal_percent(-75), 50);
    assert_eq!(signal_percent(-51), 98);
    assert_eq!(signal_percent(i16::MIN), 0);
    assert_eq!(signal_percent(i16::MAX), 100);
}

#[test]
fn signal_percent_never_decreases() {
    let mut last = 0u8;
    for dbm in -130i16..=10 {
        let p = signal_percent(dbm);
        assert!(p >= last);
        assert!(p <= 100);
        last = p;
    }
}

#[test]
fn security_labels() {
    let text = format!(
        "{}a\t1\t-50\t[WPA-PSK-CCMP][WPA2-PSK-CCMP][ESS]\tBoth\nb\t1\t-50\t[WPA-PSK-TKIP][ESS]\tOld\nc\t1\t-50\t[ESS]\tFree\n",
        HEADER
    );
    let nets = parse_scan_results(&text).unwrap();
    assert_eq!(nets[0].security, "WPA2");
    assert_eq!(nets[1].security, "WPA");
    assert_eq!(nets[2].security, "Open");
}

#[test]
fn header_and_bad_rows_are_skipped() {
    let text = format!(
        "{}a\t1\t-50\t[ESS]\t\nshort\trow\nb\t1\t-50\t[ESS]\tKept\textra\n\n",
        HEADER
    );
    let nets = parse_scan_results(&text).unwrap();
    assert_eq!(nets.len(), 1);
    assert_eq!(nets[0].ssid, "Kept");
}

#[test]
fn empty_and_header_only_replies() {
    assert!(parse_scan_results("").unwrap().is_empty());
    assert!(parse_scan_results(HEADER).unwrap().is_empty());
    assert!(parse_scan_results("a\t1\t-50\t[ESS]\tOnlyHeader").unwrap().is_empty());
}

#[test]
fn unreadable_level_counts_as_floor() {
    let text = format!("{}a\t1\tnoise\t[ESS]\tX\nb\t1\t+99999\t[ESS]\tY\n", HEADER);
    let nets = parse_scan_results(&text).unwrap();
    assert_eq!(nets[0].signal, 0);
    assert_eq!(nets[1].signal, 0);
}

#[test]
fn crlf_line_endings() {
    let text = "header\r\na\t1\t-60\t[WPA2]\tHome\r\nb\t1\t-70\t[ESS]\tCafe";
    let nets = parse_scan_results(text).unwrap();
    assert_eq!(nets.len(), 2);
    assert_eq!(nets[0].ssid, "Home");
    assert_eq!(nets[0].signal, 80);
    assert_eq!(nets[1].ssid, "Cafe");
}

#[test]
fn invalid_utf8_ssid_is_decoded_lossily() {
    let text = format!("{}a\t1\t-60\t[ESS]\tab\\xff\n", HEADER);
    let nets = parse_scan_results(&text).unwrap();
    assert_eq!(nets[0].ssid, "ab\u{fffd}");
}

#[test]
fn unescape_hex_escapes() {
    assert_eq!(unescape_wpa_ssid("caf\\xc3\\xa9"), "café".as_bytes().to_vec());
    assert_eq!(unescape_wpa_ssid("\\X41\\x7a"), b"Az".to_vec());
}

#[test]
fn unescape_keeps_unknown_escapes() {
    assert_eq!(unescape_wpa_ssid("a\\\\b"), b"a\\b".to_vec());
    assert_eq!(unescape_wpa_ssid("a\\qb"), b"a\\qb".to_vec());
    assert_eq!(unescape_wpa_ssid("end\\"), b"end\\".to_vec());
    assert_eq!(unescape_wpa_ssid("\\xZ1"), b"\\xZ1".to_vec());
    assert_eq!(unescape_wpa_ssid("\\x4"), b"\\x4".to_vec());
    assert_eq!(unescape_wpa_ssid(""), Vec::<u8>::new());
}

#[test]
fn unescape_round_trip_of_printed_ssid() {
    // The supplicant prints 0x00, a backslash, 'A' and 0xff like this.
    let printed = "\\x00\\\\A\\xff";
    assert_eq!(unescape_wpa_ssid(printed), vec![0x00u8, 0x5c, 0x41, 0xff]);
}
