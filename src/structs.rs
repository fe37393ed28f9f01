//! The values that travel between the supplicant, the orchestrator and the
//! HTTP surface.
use vstd::prelude::*;

verus! {

/// One Wi-Fi network seen in a scan.
#[derive(Debug, Clone)]
pub struct Network {
    pub ssid: String,
    /// Signal strength, 0 to 100.
    pub signal: u8,
    /// "WPA2", "WPA" or "Open".
    pub security: String,
}

/// What a `Network` holds, as mathematical values.
pub struct NetworkView {
    pub ssid: Seq<char>,
    pub signal: u8,
    pub security: Seq<char>,
}

impl View for Network {
    type V = NetworkView;

    open spec fn view(&self) -> NetworkView {
        NetworkView { ssid: self.ssid@, signal: self.signal, security: self.security@ }
    }
}

/// The networks of a list, as mathematical values.
pub open spec fn networks_view(v: Seq<Network>) -> Seq<NetworkView> {
    v.map_values(|n: Network| n@)
}

/// Credentials that a client submits for the network to join.
#[derive(Debug, Clone)]
pub struct ConnectionRequest {
    pub ssid: String,
    /// Empty for an open network.
    pub password: String,
}

} // verus!
