//! Scan Engine: reading the supplicant's `SCAN_RESULTS` table into networks.
use vstd::prelude::*;
use vstd::string::*;

use crate::error::ProvisionError;
use crate::ssid::{unescape_bytes, unescape_wpa_ssid_bytes};
use crate::structs::{networks_view, Network, NetworkView};
use crate::text::{
    contains, contains_bytes, copy_range, find_byte, index_from, lemma_index_from_bounds,
    parse_i16, parse_i16_spec, split_bytes, split_from, views_of,
};

verus! {

pub const NEWLINE: u8 = 0x0a;

pub const CARRIAGE_RETURN: u8 = 0x0d;

pub const TAB: u8 = 0x09;

/// What `String::from_utf8_lossy` makes of these bytes.
pub uninterp spec fn lossy_utf8(b: Seq<u8>) -> Seq<char>;

/// Relies on `String::from_utf8_lossy`: the text depends on the bytes alone.
#[verifier::external_body]
fn decode_lossy(b: &[u8]) -> (r: String)
    ensures
        r@ == lossy_utf8(b@),
{
    String::from_utf8_lossy(b).to_string()
}

/// Percentage for a signal level in dBm: clamped to [-100, -50], then
/// scaled linearly onto [0, 100].
pub open spec fn signal_percent_spec(dbm: int) -> int {
    let c = if dbm < -100 {
        -100
    } else if dbm > -50 {
        -50
    } else {
        dbm
    };
    (c + 100) * 2
}

/// Maps a signal level in dBm to a percentage.
pub fn signal_percent(dbm: i16) -> (r: u8)
    ensures
        r == signal_percent_spec(dbm as int),
        dbm <= -100 ==> r == 0,
        dbm >= -50 ==> r == 100,
        r <= 100,
{
    let c: i16 = if dbm < -100 {
        -100
    } else if dbm > -50 {
        -50
    } else {
        dbm
    };
    ((c + 100) * 2) as u8
}

/// The percentage never decreases as the signal level grows.
pub proof fn lemma_signal_monotonic(a: int, b: int)
    requires
        a <= b,
    ensures
        signal_percent_spec(a) <= signal_percent_spec(b),
{
}

/// Security label for the flags column: "WPA2" if the flags mention it,
/// else "WPA" if they mention that, else "Open".
pub open spec fn security_label(flags: Seq<u8>) -> Seq<char> {
    if contains_bytes(flags, seq![0x57u8, 0x50, 0x41, 0x32]) {
        "WPA2"@
    } else if contains_bytes(flags, seq![0x57u8, 0x50, 0x41]) {
        "WPA"@
    } else {
        "Open"@
    }
}

/// Signal level of the third column; a level that does not read as a
/// 16-bit number counts as -100 dBm.
pub open spec fn row_dbm(field: Seq<u8>) -> i16 {
    match parse_i16_spec(field) {
        Some(v) => v,
        None => -100i16,
    }
}

/// The network that one row of the table describes, if any: a row needs
/// five tab-separated columns (bssid, frequency, signal level, flags, ssid)
/// and an SSID that is not empty once decoded.
pub open spec fn row_network(line: Seq<u8>) -> Option<NetworkView> {
    let f = split_from(line, 0, TAB);
    if f.len() < 5 {
        None
    } else if unescape_bytes(f[4]).len() == 0 {
        None
    } else {
        Some(
            NetworkView {
                ssid: lossy_utf8(unescape_bytes(f[4])),
                signal: signal_percent_spec(row_dbm(f[2]) as int) as u8,
                security: security_label(f[3]),
            },
        )
    }
}

/// The line that starts at `i`, without its line ending (`\n`, or `\r\n`).
pub open spec fn line_at(s: Seq<u8>, i: nat) -> Seq<u8> {
    let e = index_from(s, i, NEWLINE);
    if e < s.len() && e > i && s[e - 1] == CARRIAGE_RETURN {
        s.subrange(i as int, e - 1)
    } else {
        s.subrange(i as int, e as int)
    }
}

/// The networks of the rows from the line that starts at `i` to the end.
pub open spec fn rows_from(s: Seq<u8>, i: nat) -> Seq<NetworkView>
    decreases s.len() - i via rows_from_decreases
{
    if i >= s.len() {
        Seq::empty()
    } else {
        let e = index_from(s, i, NEWLINE);
        let rest = if e < s.len() {
            rows_from(s, e + 1)
        } else {
            Seq::empty()
        };
        match row_network(line_at(s, i)) {
            Some(n) => seq![n] + rest,
            None => rest,
        }
    }
}

#[via_fn]
proof fn rows_from_decreases(s: Seq<u8>, i: nat) {
    lemma_index_from_bounds(s, i, NEWLINE);
}

/// The networks of a `SCAN_RESULTS` reply: every row after the header line.
pub open spec fn scan_networks(s: Seq<u8>) -> Seq<NetworkView> {
    rows_from(s, index_from(s, 0, NEWLINE) + 1)
}

fn label(flags: &[u8]) -> (r: String)
    ensures
        r@ == security_label(flags@),
{
    let wpa2: Vec<u8> = vec![0x57u8, 0x50, 0x41, 0x32];
    let wpa: Vec<u8> = vec![0x57u8, 0x50, 0x41];
    assert(wpa2@ =~= seq![0x57u8, 0x50, 0x41, 0x32]);
    assert(wpa@ =~= seq![0x57u8, 0x50, 0x41]);
    if contains(flags, wpa2.as_slice()) {
        String::from_str("WPA2")
    } else if contains(flags, wpa.as_slice()) {
        String::from_str("WPA")
    } else {
        String::from_str("Open")
    }
}

fn parse_row(line: &[u8]) -> (r: Option<Network>)
    ensures
        match r {
            None => row_network(line@) is None,
            Some(n) => row_network(line@) == Some(n@),
        },
{
    let f = split_bytes(line, TAB);
    assert(views_of(f@).len() == f@.len());
    if f.len() < 5 {
        return None;
    }
    assert(views_of(f@)[4] == f@[4]@);
    assert(views_of(f@)[3] == f@[3]@);
    assert(views_of(f@)[2] == f@[2]@);
    let ssid_bytes = unescape_wpa_ssid_bytes(f[4].as_slice());
    if ssid_bytes.len() == 0 {
        return None;
    }
    let dbm = match parse_i16(f[2].as_slice()) {
        Some(v) => v,
        None => -100,
    };
    let ssid = decode_lossy(ssid_bytes.as_slice());
    let security = label(f[3].as_slice());
    let signal = signal_percent(dbm);
    Some(Network { ssid, signal, security })
}

/// Parses the reply to `SCAN_RESULTS`: the header line is skipped, and each
/// later row with five columns and a non-empty SSID gives one network.
pub fn parse_scan_results(output: &str) -> (r: Result<Vec<Network>, ProvisionError>)
    ensures
        r is Ok,
        r matches Ok(v) && networks_view(v@) == scan_networks(output.spec_bytes()),
{
    let bs = output.as_bytes();
    let ghost s = bs@;
    let mut networks: Vec<Network> = Vec::new();
    let header_end = find_byte(bs, 0, NEWLINE);
    if header_end >= bs.len() {
        proof {
            lemma_index_from_bounds(s, 0, NEWLINE);
        }
        assert(networks_view(networks@) =~= scan_networks(s));
        return Ok(networks);
    }
    let mut i = header_end + 1;
    assert(networks_view(networks@) + rows_from(s, i as nat) =~= scan_networks(s));
    while i < bs.len()
        invariant
            bs@ == s,
            s == output.spec_bytes(),
            i <= s.len(),
            networks_view(networks@) + rows_from(s, i as nat) == scan_networks(s),
        decreases bs.len() - i,
    {
        let e = find_byte(bs, i, NEWLINE);
        let end = if e < bs.len() && e > i && bs[e - 1] == CARRIAGE_RETURN {
            e - 1
        } else {
            e
        };
        let line = copy_range(bs, i, end);
        assert(line@ == line_at(s, i as nat));
        let ghost before = networks_view(networks@);
        let ghost rest = if e < s.len() {
            rows_from(s, (e + 1) as nat)
        } else {
            Seq::empty()
        };
        let row = parse_row(line.as_slice());
        match row {
            Some(n) => {
                networks.push(n);
                assert(networks_view(networks@) =~= before.push(n@));
                assert(before + rows_from(s, i as nat) =~= networks_view(networks@) + rest);
            },
            None => {
                assert(before + rows_from(s, i as nat) =~= networks_view(networks@) + rest);
            },
        }
        if e >= bs.len() {
            assert(networks_view(networks@) =~= networks_view(networks@) + rest);
            return Ok(networks);
        }
        i = e + 1;
    }
    assert(rows_from(s, i as nat) =~= Seq::<NetworkView>::empty());
    assert(networks_view(networks@) =~= networks_view(networks@) + rows_from(s, i as nat));
    Ok(networks)
}

} // verus!
