//! Simulated backends: fixed scan lists and predictable connection results,
//! for exercising the HTTP surface and UI without a radio.
use vstd::prelude::*;
use vstd::string::*;

use crate::error::ProvisionError;
use crate::structs::{networks_view, ConnectionRequest, Network, NetworkView};

verus! {

fn network(ssid: &str, signal: u8, security: &str) -> (r: Network)
    ensures
        r@ == (NetworkView { ssid: ssid@, signal, security: security@ }),
{
    Network { ssid: String::from_str(ssid), signal, security: String::from_str(security) }
}

/// The networks a simulated live scan reports.
pub open spec fn mock_live_networks() -> Seq<NetworkView> {
    seq![
        NetworkView { ssid: "MyHomeWiFi"@, signal: 95, security: "WPA3"@ },
        NetworkView { ssid: "CafeGuest"@, signal: 78, security: "Open"@ },
        NetworkView { ssid: "Neighbor's Network"@, signal: 55, security: "WPA2"@ },
        NetworkView { ssid: "xfinitywifi"@, signal: 88, security: "WPA2"@ },
        NetworkView { ssid: "HiddenNetwork"@, signal: 42, security: "WPA2"@ },
    ]
}

/// The network whose simulated connection fails.
pub open spec fn mock_failing_ssid() -> Seq<char> {
    "xfinitywifi"@
}

/// A simulated backend that can scan while its access point is up.
#[derive(Debug, Default)]
pub struct MockConcurrentBackend;

impl MockConcurrentBackend {
    pub fn new() -> Self {
        Self
    }

    /// The fixed list of a simulated scan.
    pub fn scan(&self) -> (r: Vec<Network>)
        ensures
            networks_view(r@) == mock_live_networks(),
    {
        let mut v: Vec<Network> = Vec::new();
        v.push(network("MyHomeWiFi", 95, "WPA3"));
        v.push(network("CafeGuest", 78, "Open"));
        v.push(network("Neighbor's Network", 55, "WPA2"));
        v.push(network("xfinitywifi", 88, "WPA2"));
        v.push(network("HiddenNetwork", 42, "WPA2"));
        assert(networks_view(v@) =~= mock_live_networks());
        v
    }

    /// A simulated connection: it fails for `xfinitywifi` alone.
    pub fn connect(&self, req: &ConnectionRequest) -> (r: Result<(), ProvisionError>)
        ensures
            r is Err <==> req.ssid@ == mock_failing_ssid(),
            r matches Err(e) ==> e == ProvisionError::CommitRejected,
    {
        if req.ssid == String::from_str("xfinitywifi") {
            Err(ProvisionError::CommitRejected)
        } else {
            Ok(())
        }
    }

    /// A simulated device is never connected.
    pub fn is_connected(&self) -> (r: bool)
        ensures
            !r,
    {
        false
    }
}

/// The networks a simulated start-up scan reports.
pub open spec fn mock_snapshot_networks() -> Seq<NetworkView> {
    seq![
        NetworkView { ssid: "TDM_Network_A"@, signal: 80, security: "WPA2"@ },
        NetworkView { ssid: "TDM_Network_B"@, signal: 60, security: "Open"@ },
    ]
}

/// A simulated backend that scans once, before its access point is up.
#[derive(Debug, Default)]
pub struct MockTdmBackend;

impl MockTdmBackend {
    pub fn new() -> Self {
        Self
    }

    /// The fixed start-up scan of the simulation.
    pub fn enter_provisioning_mode_with_scan(&self) -> (r: Vec<Network>)
        ensures
            networks_view(r@) == mock_snapshot_networks(),
    {
        let mut v: Vec<Network> = Vec::new();
        v.push(network("TDM_Network_A", 80, "WPA2"));
        v.push(network("TDM_Network_B", 60, "Open"));
        assert(networks_view(v@) =~= mock_snapshot_networks());
        v
    }

    /// A simulated connection always succeeds.
    pub fn connect(&self, _req: &ConnectionRequest) -> (r: Result<(), ProvisionError>)
        ensures
            r is Ok,
    {
        Ok(())
    }

    /// A simulated device is never connected.
    pub fn is_connected(&self) -> (r: bool)
        ensures
            !r,
    {
        false
    }
}

} // verus!
