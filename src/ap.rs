//! AP Controller: the access point is a network of the supplicant in mode 2,
//! with the gateway address on the interface and a DHCP/DNS sidecar.
use vstd::prelude::*;
use vstd::string::*;
use vstd::utf8::encode_utf8;

use crate::config::ApConfig;
use crate::supplicant::{WpaCommand, WpaCommandView};
use crate::text::{contains, contains_bytes};

verus! {

/// Frequency in MHz of a channel, for hardware mode `b`/`g` (2.4 GHz) or `a`
/// (5 GHz); `None` for a combination without one.
pub open spec fn channel_frequency(channel: u8, hw_mode: Seq<char>) -> Option<u32> {
    if hw_mode == "b"@ || hw_mode == "g"@ {
        if 1 <= channel <= 13 {
            Some((2407 + 5 * channel) as u32)
        } else if channel == 14 {
            Some(2484)
        } else {
            None
        }
    } else if hw_mode == "a"@ {
        if (36 <= channel <= 64 && channel % 4 == 0) || (100 <= channel <= 144 && channel % 4
            == 0) || (149 <= channel <= 165 && channel % 4 == 1) {
            Some((5000 + 5 * channel) as u32)
        } else {
            None
        }
    } else {
        None
    }
}

/// Maps an IEEE 802.11 channel to its frequency for the configured mode.
pub fn channel_to_frequency(channel: u8, hw_mode: &str) -> (r: Option<u32>)
    ensures
        r == channel_frequency(channel, hw_mode@),
{
    let b = String::from_str("b");
    let g = String::from_str("g");
    let a = String::from_str("a");
    let mode = String::from_str(hw_mode);
    if mode == b || mode == g {
        if 1 <= channel && channel <= 13 {
            Some(2407 + 5 * channel as u32)
        } else if channel == 14 {
            Some(2484)
        } else {
            None
        }
    } else if mode == a {
        match channel {
            36 => Some(5180),
            40 => Some(5200),
            44 => Some(5220),
            48 => Some(5240),
            52 => Some(5260),
            56 => Some(5280),
            60 => Some(5300),
            64 => Some(5320),
            100 => Some(5500),
            104 => Some(5520),
            108 => Some(5540),
            112 => Some(5560),
            116 => Some(5580),
            120 => Some(5600),
            124 => Some(5620),
            128 => Some(5640),
            132 => Some(5660),
            136 => Some(5680),
            140 => Some(5700),
            144 => Some(5720),
            149 => Some(5745),
            153 => Some(5765),
            157 => Some(5785),
            161 => Some(5805),
            165 => Some(5825),
            _ => None,
        }
    } else {
        None
    }
}

pub open spec fn nibble_char(n: u8) -> char {
    if n < 10 {
        (0x30 + n) as char
    } else {
        (0x61 + n - 10) as char
    }
}

/// Lower-case hexadecimal text of bytes, two digits per byte, high first.
pub open spec fn hex_lower(b: Seq<u8>) -> Seq<char>
    decreases b.len(),
{
    if b.len() == 0 {
        Seq::empty()
    } else {
        seq![nibble_char(b[0] / 16), nibble_char(b[0] % 16)] + hex_lower(b.skip(1))
    }
}

/// Relies on `hex::encode`: two lower-case hexadecimal digits per byte,
/// high nibble first.
#[verifier::external_body]
fn hex_encode(b: &[u8]) -> (r: String)
    ensures
        r@ == hex_lower(b@),
{
    hex::encode(b)
}

/// The SSID as the supplicant takes it in hexadecimal, which lets it hold
/// any bytes.
pub fn ssid_hex(ssid: &str) -> (r: String)
    ensures
        r@ == hex_lower(encode_utf8(ssid@)),
{
    hex_encode(ssid.as_bytes())
}

/// A password as the supplicant takes it: in double quotes.
pub open spec fn quoted(s: Seq<char>) -> Seq<char> {
    "\""@ + s + "\""@
}

pub fn quote(s: &str) -> (r: String)
    ensures
        r@ == quoted(s@),
{
    let mut q = String::from_str("\"");
    q.append(s);
    q.append("\"");
    q
}

/// One request of a script, and whether its failure ends the script.
#[derive(Debug, Clone)]
pub struct ScriptStep {
    pub command: WpaCommand,
    pub must_succeed: bool,
}

pub open spec fn set_net(id: u32, field: Seq<char>, value: Seq<char>) -> WpaCommandView {
    WpaCommandView::SetNetwork { id, field, value }
}

/// `proto` value for the configured WPA version.
pub open spec fn proto_for(wpa: u8) -> Seq<char> {
    if wpa == 2 {
        "RSN"@
    } else if wpa == 1 {
        "WPA"@
    } else {
        "WPA RSN"@
    }
}

/// The requests that turn network `id` into the access point, in order:
/// mode 2, the SSID in hexadecimal, then either no key management (empty
/// PSK) or protocol, key management, pairwise cipher and PSK; then the
/// frequency, whose failure is tolerated, when the channel has one; then
/// enabling the network.
pub open spec fn ap_script(c: ApConfig, id: u32) -> Seq<(WpaCommandView, bool)> {
    let head = seq![
        (set_net(id, "mode"@, "2"@), true),
        (set_net(id, "ssid"@, hex_lower(encode_utf8(c.ssid@))), true),
    ];
    let security = if c.psk@.len() == 0 {
        seq![(set_net(id, "key_mgmt"@, "NONE"@), true)]
    } else {
        seq![
            (set_net(id, "proto"@, proto_for(c.hostapd_wpa)), true),
            (set_net(id, "key_mgmt"@, c.hostapd_wpa_key_mgmt@), true),
            (set_net(id, "pairwise"@, c.hostapd_wpa_pairwise@), true),
            (set_net(id, "psk"@, quoted(c.psk@)), true),
        ]
    };
    let freq = match channel_frequency(c.hostapd_channel, c.hostapd_hw_mode@) {
        Some(f) => seq![(set_net(id, "freq"@, crate::supplicant::decimal(f as nat)), false)],
        None => Seq::empty(),
    };
    head + security + freq + seq![(WpaCommandView::EnableNetwork { id }, true)]
}

pub open spec fn steps_view(v: Seq<ScriptStep>) -> Seq<(WpaCommandView, bool)> {
    v.map_values(|s: ScriptStep| (s.command@, s.must_succeed))
}

fn set_step(id: u32, field: &str, value: String, must_succeed: bool) -> (r: ScriptStep)
    ensures
        r.command@ == set_net(id, field@, value@),
        r.must_succeed == must_succeed,
{
    ScriptStep {
        command: WpaCommand::SetNetwork { id, field: String::from_str(field), value },
        must_succeed,
    }
}

/// The requests that configure network `id`, just added, as the access point.
pub fn ap_network_script(config: &ApConfig, id: u32) -> (r: Vec<ScriptStep>)
    ensures
        steps_view(r@) == ap_script(*config, id),
{
    let mut v: Vec<ScriptStep> = Vec::new();
    v.push(set_step(id, "mode", String::from_str("2"), true));
    v.push(set_step(id, "ssid", ssid_hex(config.ssid.as_str()), true));
    if config.psk.as_str().unicode_len() == 0 {
        v.push(set_step(id, "key_mgmt", String::from_str("NONE"), true));
    } else {
        let proto = if config.hostapd_wpa == 2 {
            String::from_str("RSN")
        } else if config.hostapd_wpa == 1 {
            String::from_str("WPA")
        } else {
            String::from_str("WPA RSN")
        };
        v.push(set_step(id, "proto", proto, true));
        v.push(set_step(id, "key_mgmt", String::from_str(config.hostapd_wpa_key_mgmt.as_str()), true));
        v.push(set_step(id, "pairwise", String::from_str(config.hostapd_wpa_pairwise.as_str()), true));
        v.push(set_step(id, "psk", quote(config.psk.as_str()), true));
    }
    match channel_to_frequency(config.hostapd_channel, config.hostapd_hw_mode.as_str()) {
        Some(f) => {
            v.push(set_step(id, "freq", crate::supplicant::decimal_text(f), false));
        },
        None => {},
    }
    v.push(ScriptStep { command: WpaCommand::EnableNetwork { id }, must_succeed: true });
    assert(steps_view(v@) =~= ap_script(*config, id));
    v
}

/// The gateway address without its prefix length: the text before the
/// first '/', or all of it.
pub open spec fn gateway_ip(cidr: Seq<char>) -> Seq<char> {
    cidr.take(choose|k: int| is_first_slash(cidr, k))
}

/// `k` is the position of the first '/' of `s`, or its length if none.
pub open spec fn is_first_slash(s: Seq<char>, k: int) -> bool {
    &&& 0 <= k <= s.len()
    &&& (k == s.len() || s[k] == '/')
    &&& forall|j: int| 0 <= j < k ==> s[j] != '/'
}

/// The position of the first '/' of `s`, or its length.
fn slash_position(s: &str) -> (r: usize)
    ensures
        r <= s@.len(),
        r == s@.len() || s@[r as int] == '/',
        forall|j: int| 0 <= j < r ==> s@[j] != '/',
{
    let n = s.unicode_len();
    let mut k: usize = 0;
    while k < n
        invariant
            n == s@.len(),
            k <= n,
            forall|j: int| 0 <= j < k ==> s@[j] != '/',
        decreases n - k,
    {
        if s.get_char(k) == '/' {
            return k;
        }
        k += 1;
    }
    k
}

/// Arguments of the DHCP/DNS sidecar: serve the interface and the DHCP
/// range, answer every DNS name with the gateway address, read no resolver
/// or hosts file, and stay in the foreground.
pub open spec fn dhcp_server_args_spec(c: ApConfig) -> Seq<Seq<char>> {
    seq![
        "--interface="@ + c.interface_name@,
        "--dhcp-range="@ + c.dhcp_range@,
        "--address=/#/"@ + gateway_ip(c.gateway_cidr@),
        "--no-resolv"@,
        "--no-hosts"@,
        "--no-daemon"@,
    ]
}

pub open spec fn strings_view(v: Seq<String>) -> Seq<Seq<char>> {
    v.map_values(|s: String| s@)
}

fn joined(a: &str, b: &str) -> (r: String)
    ensures
        r@ == a@ + b@,
{
    let mut s = String::from_str(a);
    s.append(b);
    s
}

/// Command-line arguments of the DHCP/DNS sidecar.
pub fn dhcp_server_args(config: &ApConfig) -> (r: Vec<String>)
    ensures
        strings_view(r@) == dhcp_server_args_spec(*config),
{
    let cidr = config.gateway_cidr.as_str();
    let k = slash_position(cidr);
    let ip = cidr.substring_char(0, k);
    proof {
        let kk = k as int;
        assert(is_first_slash(cidr@, kk));
        let w = choose|w: int| is_first_slash(cidr@, w);
        if w < kk {
            assert(cidr@[w] == '/');
        }
        if kk < w {
            assert(cidr@[kk] != '/');
        }
        assert(w == kk);
        assert(ip@ =~= gateway_ip(cidr@));
    }
    let mut v: Vec<String> = Vec::new();
    v.push(joined("--interface=", config.interface_name.as_str()));
    v.push(joined("--dhcp-range=", config.dhcp_range.as_str()));
    v.push(joined("--address=/#/", ip));
    v.push(String::from_str("--no-resolv"));
    v.push(String::from_str("--no-hosts"));
    v.push(String::from_str("--no-daemon"));
    assert(strings_view(v@) =~= dhcp_server_args_spec(*config));
    v
}

/// Whether `ip addr add` of the gateway address left it in place: it
/// succeeded, or it failed because the address was already there.
pub open spec fn address_add_ok_spec(succeeded: bool, stderr: Seq<u8>) -> bool {
    succeeded || contains_bytes(stderr, encode_utf8("File exists"@))
}

/// Whether `ip addr del` of the gateway address left it removed: it
/// succeeded, or it failed because the address was not there.
pub open spec fn address_del_ok_spec(succeeded: bool, stderr: Seq<u8>) -> bool {
    succeeded || contains_bytes(stderr, encode_utf8("Cannot assign requested address"@))
}

pub fn address_add_ok(succeeded: bool, stderr: &[u8]) -> (r: bool)
    ensures
        r == address_add_ok_spec(succeeded, stderr@),
{
    succeeded || contains(stderr, "File exists".as_bytes())
}

pub fn address_del_ok(succeeded: bool, stderr: &[u8]) -> (r: bool)
    ensures
        r == address_del_ok_spec(succeeded, stderr@),
{
    succeeded || contains(stderr, "Cannot assign requested address".as_bytes())
}

/// What is held for the access point at a moment.
pub struct ApStateView {
    /// Id of the supplicant network that realizes the access point.
    pub network_id: Option<u32>,
    /// Whether the DHCP/DNS sidecar runs.
    pub dhcp_running: bool,
    /// Whether the gateway address is on the interface.
    pub address_assigned: bool,
}

/// Exclusivity: the DHCP sidecar runs only while the access point network
/// is installed. Every state an `ApState` reaches has it.
pub open spec fn exclusive(v: ApStateView) -> bool {
    v.dhcp_running ==> v.network_id is Some
}

/// Nothing of the access point is held.
pub open spec fn ap_down() -> ApStateView {
    ApStateView { network_id: None, dhcp_running: false, address_assigned: false }
}

/// The access point's resources, tracked as the orchestrator acquires and
/// releases them. The sidecar only runs while the access point network is
/// installed: it is started after the network and stopped before it.
pub struct ApState {
    network_id: Option<u32>,
    dhcp_running: bool,
    address_assigned: bool,
}

/// One release of an access point resource.
#[derive(Debug, Clone, Copy, PartialEq, Eq)]
pub enum TearDownStep {
    /// Kill the DHCP/DNS sidecar.
    StopDhcp,
    /// `REMOVE_NETWORK` of the access point network.
    RemoveNetwork(u32),
    /// Delete the gateway address from the interface.
    DeleteAddress,
}

impl View for ApState {
    type V = ApStateView;

    closed spec fn view(&self) -> ApStateView {
        ApStateView {
            network_id: self.network_id,
            dhcp_running: self.dhcp_running,
            address_assigned: self.address_assigned,
        }
    }
}

/// The steps that release everything `v` holds, in order: sidecar first,
/// then the network, then the address (always tried, as it may be left from
/// an earlier run).
pub open spec fn tear_down_steps(v: ApStateView) -> Seq<TearDownStep> {
    (if v.dhcp_running {
        seq![TearDownStep::StopDhcp]
    } else {
        Seq::empty()
    }) + (match v.network_id {
        Some(id) => seq![TearDownStep::RemoveNetwork(id)],
        None => Seq::empty(),
    }) + seq![TearDownStep::DeleteAddress]
}

impl ApState {
    #[verifier::type_invariant]
    spec fn sidecar_needs_network(&self) -> bool {
        self.dhcp_running ==> self.network_id is Some
    }

    /// Nothing held yet.
    pub fn new() -> (r: ApState)
        ensures
            r@ == ap_down(),
            exclusive(r@),
    {
        ApState { network_id: None, dhcp_running: false, address_assigned: false }
    }

    pub fn network_id(&self) -> (r: Option<u32>)
        ensures
            r == self@.network_id,
            exclusive(self@),
    {
        proof {
            use_type_invariant(self);
        }
        self.network_id
    }

    pub fn dhcp_running(&self) -> (r: bool)
        ensures
            r == self@.dhcp_running,
    {
        self.dhcp_running
    }

    /// Whether the whole access point is up.
    pub fn is_up(&self) -> (r: bool)
        ensures
            r == (self@.network_id is Some && self@.dhcp_running && self@.address_assigned),
    {
        self.network_id.is_some() && self.dhcp_running && self.address_assigned
    }

    /// The releases that tear the access point down from this state.
    pub fn tear_down_plan(&self) -> (r: Vec<TearDownStep>)
        ensures
            r@ == tear_down_steps(self@),
    {
        let mut v: Vec<TearDownStep> = Vec::new();
        if self.dhcp_running {
            v.push(TearDownStep::StopDhcp);
        }
        match self.network_id {
            Some(id) => v.push(TearDownStep::RemoveNetwork(id)),
            None => {},
        }
        v.push(TearDownStep::DeleteAddress);
        assert(v@ =~= tear_down_steps(self@));
        v
    }

    /// Records that one release of the tear-down was carried out. Removing
    /// the network while the sidecar runs is refused (returns false).
    pub fn released(&mut self, step: TearDownStep) -> (ok: bool)
        ensures
            ok == !(step matches TearDownStep::RemoveNetwork(_) && old(self)@.dhcp_running),
            ok ==> final(self)@ == (match step {
                TearDownStep::StopDhcp => ApStateView { dhcp_running: false, ..old(self)@ },
                TearDownStep::RemoveNetwork(_) => ApStateView { network_id: None, ..old(self)@ },
                TearDownStep::DeleteAddress => ApStateView {
                    address_assigned: false,
                    ..old(self)@
                },
            }),
            !ok ==> final(self)@ == old(self)@,
            exclusive(final(self)@),
        no_unwind
    {
        proof {
            use_type_invariant(&*self);
        }
        match step {
            TearDownStep::StopDhcp => {
                self.dhcp_running = false;
                true
            },
            TearDownStep::RemoveNetwork(_) => {
                if self.dhcp_running {
                    false
                } else {
                    self.network_id = None;
                    true
                }
            },
            TearDownStep::DeleteAddress => {
                self.address_assigned = false;
                true
            },
        }
    }

    /// Records that the gateway address is on the interface.
    pub fn address_added(&mut self)
        ensures
            final(self)@ == (ApStateView { address_assigned: true, ..old(self)@ }),
            exclusive(final(self)@),
        no_unwind
    {
        proof {
            use_type_invariant(&*self);
        }
        self.address_assigned = true;
    }

    /// Records that network `id` now realizes the access point.
    pub fn network_enabled(&mut self, id: u32)
        ensures
            final(self)@ == (ApStateView { network_id: Some(id), ..old(self)@ }),
            exclusive(final(self)@),
        no_unwind
    {
        proof {
            use_type_invariant(&*self);
        }
        self.network_id = Some(id);
    }

    /// Records that the sidecar was started; refused (false) while no access
    /// point network is installed.
    pub fn dhcp_started(&mut self) -> (ok: bool)
        ensures
            ok == (old(self)@.network_id is Some),
            ok ==> final(self)@ == (ApStateView { dhcp_running: true, ..old(self)@ }),
            !ok ==> final(self)@ == old(self)@,
            exclusive(final(self)@),
        no_unwind
    {
        proof {
            use_type_invariant(&*self);
        }
        match self.network_id {
            Some(_) => {
                self.dhcp_running = true;
                true
            },
            None => false,
        }
    }
}

/// Carrying out the tear-down plan, step by step, releases everything.
pub proof fn lemma_tear_down_releases_all(v: ApStateView)
    requires
        exclusive(v),
    ensures
        run_tear_down(v, tear_down_steps(v)) == ap_down(),
    decreases tear_down_steps(v).len(),
{
    let steps = tear_down_steps(v);
    if v.dhcp_running {
        let v1 = ApStateView { dhcp_running: false, ..v };
        assert(steps[0] == TearDownStep::StopDhcp);
        assert(steps.skip(1) =~= tear_down_steps(v1));
        lemma_tear_down_releases_all(v1);
    } else if v.network_id is Some {
        let v1 = ApStateView { network_id: None, ..v };
        assert(steps[0] == TearDownStep::RemoveNetwork(v.network_id->Some_0));
        assert(steps.skip(1) =~= tear_down_steps(v1));
        lemma_tear_down_releases_all(v1);
    } else {
        assert(steps =~= seq![TearDownStep::DeleteAddress]);
        assert(steps.skip(1) =~= Seq::<TearDownStep>::empty());
        let v1 = ApStateView { address_assigned: false, ..v };
        assert(run_tear_down(v1, steps.skip(1)) == v1);
        assert(v1 == ap_down());
    }
}

/// The state after each step of `steps` is recorded with `released`.
pub open spec fn run_tear_down(v: ApStateView, steps: Seq<TearDownStep>) -> ApStateView
    decreases steps.len(),
{
    if steps.len() == 0 {
        v
    } else {
        let next = match steps[0] {
            TearDownStep::StopDhcp => ApStateView { dhcp_running: false, ..v },
            TearDownStep::RemoveNetwork(_) => if v.dhcp_running {
                v
            } else {
                ApStateView { network_id: None, ..v }
            },
            TearDownStep::DeleteAddress => ApStateView { address_assigned: false, ..v },
        };
        run_tear_down(next, steps.skip(1))
    }
}

} // verus!
