//! STA Connector: handing the user's credentials to the supplicant, and
//! judging its progress while polling `STATUS`.
use vstd::prelude::*;
use vstd::string::*;
use vstd::utf8::encode_utf8;

use crate::ap::{hex_lower, quote, quoted, ssid_hex, strings_view};
use crate::config::ApConfig;
use crate::structs::ConnectionRequest;
use crate::supplicant::{parse_wpa_state, wpa_state_of, WpaCommand, WpaCommandView};

verus! {

/// Total time a connection attempt may take.
pub const COMMIT_BUDGET_MS: u64 = 30_000;

/// Time during which an idle state still counts as "not yet".
pub const GRACE_MS: u64 = 5_000;

/// Pause between two `STATUS` polls.
pub const POLL_INTERVAL_MS: u64 = 2_000;

pub open spec fn commands_view(v: Seq<WpaCommand>) -> Seq<WpaCommandView> {
    v.map_values(|c: WpaCommand| c@)
}

/// The requests that configure network `id` for the chosen network: SSID in
/// hexadecimal, then no key management for an empty password or the
/// password as PSK, then enabling it.
pub open spec fn sta_script(ssid: Seq<char>, password: Seq<char>, id: u32) -> Seq<WpaCommandView> {
    seq![
        WpaCommandView::SetNetwork { id, field: "ssid"@, value: hex_lower(encode_utf8(ssid)) },
        if password.len() == 0 {
            WpaCommandView::SetNetwork { id, field: "key_mgmt"@, value: "NONE"@ }
        } else {
            WpaCommandView::SetNetwork { id, field: "psk"@, value: quoted(password) }
        },
        WpaCommandView::EnableNetwork { id },
    ]
}

/// The requests that configure network `id`, just added, for `req`.
pub fn sta_network_script(req: &ConnectionRequest, id: u32) -> (r: Vec<WpaCommand>)
    ensures
        commands_view(r@) == sta_script(req.ssid@, req.password@, id),
{
    let mut v: Vec<WpaCommand> = Vec::new();
    v.push(
        WpaCommand::SetNetwork {
            id,
            field: String::from_str("ssid"),
            value: ssid_hex(req.ssid.as_str()),
        },
    );
    if req.password.as_str().unicode_len() == 0 {
        v.push(
            WpaCommand::SetNetwork {
                id,
                field: String::from_str("key_mgmt"),
                value: String::from_str("NONE"),
            },
        );
    } else {
        v.push(
            WpaCommand::SetNetwork {
                id,
                field: String::from_str("psk"),
                value: quote(req.password.as_str()),
            },
        );
    }
    v.push(WpaCommand::EnableNetwork { id });
    assert(commands_view(v@) =~= sta_script(req.ssid@, req.password@, id));
    v
}

/// How a `wpa_state` value bears on a connection attempt.
#[derive(Debug, Clone, Copy, PartialEq, Eq)]
pub enum LinkState {
    /// `COMPLETED`.
    Completed,
    /// `ASSOCIATING`, `ASSOCIATED`, `4WAY_HANDSHAKE`, `GROUP_HANDSHAKE` or
    /// `SCANNING`.
    InProgress,
    /// `DISCONNECTED`, `INACTIVE` or `INTERFACE_DISABLED`.
    Idle,
    /// Any other value, or none.
    Unknown,
}

pub open spec fn link_state_spec(v: Seq<u8>) -> LinkState {
    if v == encode_utf8("COMPLETED"@) {
        LinkState::Completed
    } else if v == encode_utf8("ASSOCIATING"@) || v == encode_utf8("ASSOCIATED"@) || v
        == encode_utf8("4WAY_HANDSHAKE"@) || v == encode_utf8("GROUP_HANDSHAKE"@) || v
        == encode_utf8("SCANNING"@) {
        LinkState::InProgress
    } else if v == encode_utf8("DISCONNECTED"@) || v == encode_utf8("INACTIVE"@) || v
        == encode_utf8("INTERFACE_DISABLED"@) {
        LinkState::Idle
    } else {
        LinkState::Unknown
    }
}

fn bytes_eq(a: &[u8], b: &[u8]) -> (r: bool)
    ensures
        r == (a@ == b@),
{
    if a.len() != b.len() {
        return false;
    }
    let mut k: usize = 0;
    while k < a.len()
        invariant
            a@.len() == b@.len(),
            k <= a@.len(),
            forall|m: int| 0 <= m < k ==> a@[m] == b@[m],
        decreases a.len() - k,
    {
        if a[k] != b[k] {
            return false;
        }
        k += 1;
    }
    assert(a@ =~= b@);
    true
}

/// Classifies a `wpa_state` value.
pub fn link_state(v: &[u8]) -> (r: LinkState)
    ensures
        r == link_state_spec(v@),
{
    if bytes_eq(v, "COMPLETED".as_bytes()) {
        LinkState::Completed
    } else if bytes_eq(v, "ASSOCIATING".as_bytes()) || bytes_eq(v, "ASSOCIATED".as_bytes())
        || bytes_eq(v, "4WAY_HANDSHAKE".as_bytes()) || bytes_eq(v, "GROUP_HANDSHAKE".as_bytes())
        || bytes_eq(v, "SCANNING".as_bytes()) {
        LinkState::InProgress
    } else if bytes_eq(v, "DISCONNECTED".as_bytes()) || bytes_eq(v, "INACTIVE".as_bytes())
        || bytes_eq(v, "INTERFACE_DISABLED".as_bytes()) {
        LinkState::Idle
    } else {
        LinkState::Unknown
    }
}

/// What to do after one poll of a connection attempt.
#[derive(Debug, Clone, Copy, PartialEq, Eq)]
pub enum CommitVerdict {
    /// Associated: run the success path.
    Connected,
    /// Poll again after the interval.
    KeepPolling,
    /// Give up: run the failure path.
    Failed,
}

/// The verdict for a state seen `elapsed_ms` after the attempt started.
pub open spec fn commit_verdict_spec(s: LinkState, elapsed_ms: u64) -> CommitVerdict {
    match s {
        LinkState::Completed => CommitVerdict::Connected,
        LinkState::Idle => if elapsed_ms < GRACE_MS {
            CommitVerdict::KeepPolling
        } else {
            CommitVerdict::Failed
        },
        _ => CommitVerdict::KeepPolling,
    }
}

/// Judges one `STATUS` poll; a poll whose request failed (`None`) is
/// retried.
pub fn poll_verdict(status: Option<&str>, elapsed_ms: u64) -> (r: CommitVerdict)
    ensures
        r == match status {
            None => CommitVerdict::KeepPolling,
            Some(s) => commit_verdict_spec(link_state_spec(wpa_state_of(s.spec_bytes())), elapsed_ms),
        },
{
    match status {
        None => CommitVerdict::KeepPolling,
        Some(s) => {
            let v = parse_wpa_state(s);
            match link_state(v.as_slice()) {
                LinkState::Completed => CommitVerdict::Connected,
                LinkState::Idle => if elapsed_ms < GRACE_MS {
                    CommitVerdict::KeepPolling
                } else {
                    CommitVerdict::Failed
                },
                _ => CommitVerdict::KeepPolling,
            }
        },
    }
}

/// Whether the attempt has used up its budget (checked before each poll).
pub fn commit_timed_out(elapsed_ms: u64) -> (r: bool)
    ensures
        r == (elapsed_ms > COMMIT_BUDGET_MS),
{
    elapsed_ms > COMMIT_BUDGET_MS
}

/// Requests sent once associated: `SAVE_CONFIG` when the configuration lets
/// the supplicant write its file, else none.
pub fn after_connect_commands(config: &ApConfig) -> (r: Vec<WpaCommand>)
    ensures
        commands_view(r@) == (if config.wpa_update_config {
            seq![WpaCommandView::SaveConfig]
        } else {
            Seq::empty()
        }),
{
    let mut v: Vec<WpaCommand> = Vec::new();
    if config.wpa_update_config {
        v.push(WpaCommand::SaveConfig);
    }
    assert(commands_view(v@) =~= (if config.wpa_update_config {
        seq![WpaCommandView::SaveConfig]
    } else {
        Seq::<WpaCommandView>::empty()
    }));
    v
}

/// Arguments of the DHCP client run once associated: the interface, quiet,
/// and exit once an address is obtained.
pub fn dhcp_client_args(config: &ApConfig) -> (r: Vec<String>)
    ensures
        strings_view(r@) == seq!["-i"@, config.interface_name@, "-q"@, "-n"@],
{
    let mut v: Vec<String> = Vec::new();
    v.push(String::from_str("-i"));
    v.push(String::from_str(config.interface_name.as_str()));
    v.push(String::from_str("-q"));
    v.push(String::from_str("-n"));
    assert(strings_view(v@) =~= seq!["-i"@, config.interface_name@, "-q"@, "-n"@]);
    v
}

} // verus!
