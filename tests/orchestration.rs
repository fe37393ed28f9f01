use provisioner::ap::TearDownStep;
use provisioner::connect::{poll_verdict, sta_network_script, CommitVerdict};
use provisioner::orchestrator::{HttpAction, Phase, Provisioner, StartupStep};
use provisioner::scan::parse_scan_results;
use provisioner::structs::{ConnectionRequest, Network};
use provisioner::web::{route, Route};

fn home() -> Vec<Network> {
    parse_scan_results("bssid / frequency / signal level / flags / ssid\n00:11:22:33:44:55\t2437\t-55\t[WPA2-PSK-CCMP][ESS]\tHome\n")
        .unwrap()
}

fn bring_up(p: &mut Provisioner, id: u32) {
    for step in p.ap().tear_down_plan() {
        assert!(p.ap_released(step));
    }
    p.ap_address_added();
    p.ap_network_enabled(id);
    assert!(p.ap_dhcp_started());
    assert!(p.ap_ready());
}

#[test]
fn scan_retry_third_attempt_finds_one() {
    let mut p = Provisioner::new();
    assert_eq!(p.scan_finished(Vec::new()), StartupStep::ScanAgain);
    assert_eq!(p.scan_finished(Vec::new()), StartupStep::ScanAgain);
    assert_eq!(p.phase(), Phase::Scanning);
    assert_eq!(p.scan_finished(home()), StartupStep::BringUpAp);
    assert_eq!(p.phase(), Phase::BringingUpAp);
    assert_eq!(p.scan_cache().len(), 1);
    assert_eq!(p.scan_cache()[0].ssid, "Home");
}

#[test]
fn empty_initial_scan() {
    let mut p = Provisioner::new();
    assert_eq!(p.scan_finished(Vec::new()), StartupStep::ScanAgain);
    assert_eq!(p.scan_finished(Vec::new()), StartupStep::ScanAgain);
    assert_eq!(p.scan_finished(Vec::new()), StartupStep::GiveUp);
    assert_eq!(p.phase(), Phase::Failed);
    assert!(!p.ap().is_up());
    assert!(!p.ap().dhcp_running());
    assert_eq!(p.ap().network_id(), None);
    assert_eq!(p.ap().tear_down_plan(), vec![TearDownStep::DeleteAddress]);
    assert!(!p.ap_ready());
}

#[test]
fn happy_path() {
    let mut p = Provisioner::new();
    let nets = home();
    assert_eq!(nets[0].signal, 90);
    assert_eq!(nets[0].security, "WPA2");
    assert_eq!(p.scan_finished(nets), StartupStep::BringUpAp);
    bring_up(&mut p, 0);
    assert_eq!(p.phase(), Phase::Serving);

    assert!(matches!(p.handle(&route("GET", "/api/scan")), HttpAction::ScanList));
    assert_eq!(p.scan_cache()[0].ssid, "Home");
    assert_eq!(p.scan_cache()[0].signal, 90);

    match p.handle(&route("POST", "/api/connect")) {
        HttpAction::AcknowledgeThenCommit(ack) => {
            assert_eq!(ack.status, 200);
            let body = String::from_utf8(ack.body).unwrap();
            assert!(body.starts_with("{\"status\":\"success\""));
        }
        other => panic!("unexpected {:?}", other),
    }
    // The acknowledgement leaves the access point as it was.
    assert!(p.ap().is_up());
    assert!(p.commit_started());
    for step in p.ap().tear_down_plan() {
        assert!(p.ap_released(step));
    }
    let req = ConnectionRequest { ssid: "Home".to_string(), password: "s3cret".to_string() };
    let script: Vec<String> = sta_network_script(&req, 1).iter().map(|c| c.text()).collect();
    assert_eq!(script[1], "SET_NETWORK 1 psk \"s3cret\"");
    assert_eq!(poll_verdict(Some("wpa_state=ASSOCIATING"), 2000), CommitVerdict::KeepPolling);
    assert_eq!(poll_verdict(Some("wpa_state=COMPLETED"), 4000), CommitVerdict::Connected);
    assert!(p.commit_finished(true));
    assert_eq!(p.phase(), Phase::Provisioned);
}

#[test]
fn wrong_password() {
    let mut p = Provisioner::new();
    assert_eq!(p.scan_finished(home()), StartupStep::BringUpAp);
    bring_up(&mut p, 0);
    assert!(p.commit_started());
    for step in p.ap().tear_down_plan() {
        assert!(p.ap_released(step));
    }
    assert_eq!(poll_verdict(Some("wpa_state=DISCONNECTED"), 2000), CommitVerdict::KeepPolling);
    assert_eq!(poll_verdict(Some("wpa_state=DISCONNECTED"), 6000), CommitVerdict::Failed);
    assert!(p.commit_finished(false));
    assert_eq!(p.phase(), Phase::BringingUpAp);
    bring_up(&mut p, 1);
    assert_eq!(p.phase(), Phase::Serving);
    assert!(matches!(p.handle(&route("GET", "/api/scan")), HttpAction::ScanList));
    assert_eq!(p.scan_cache().len(), 1);
    assert_eq!(p.scan_cache()[0].ssid, "Home");
}

#[test]
fn captive_portal_probe() {
    let mut p = Provisioner::new();
    assert_eq!(p.scan_finished(home()), StartupStep::BringUpAp);
    bring_up(&mut p, 0);
    assert!(matches!(route("GET", "/generate_204"), Route::CaptivePortalProbe));
    match p.handle(&route("GET", "/generate_204")) {
        HttpAction::Reply(r) => {
            assert_eq!(r.status, 204);
            assert!(r.body.is_empty());
        }
        other => panic!("unexpected {:?}", other),
    }
}

#[test]
fn transitions_out_of_order_are_refused() {
    let mut p = Provisioner::new();
    assert!(!p.commit_started());
    assert!(!p.commit_finished(true));
    assert_eq!(p.scan_finished(home()), StartupStep::BringUpAp);
    assert!(!p.ap_ready());
    assert!(!p.ap_dhcp_started());
    assert_eq!(p.phase(), Phase::BringingUpAp);
}
