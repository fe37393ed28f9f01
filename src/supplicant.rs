//! Supplicant Client: the commands sent over the supplicant's control socket,
//! and what its replies mean.
use vstd::prelude::*;
use vstd::string::*;

use crate::scan::{line_at, NEWLINE};
use crate::text::{
    copy_range, find_byte, index_from, lemma_index_from_bounds, parse_u32, parse_u32_spec,
    trim_ascii, trim_spec,
};

verus! {

/// A request to the supplicant.
#[derive(Debug, Clone)]
pub enum WpaCommand {
    Scan,
    ScanResults,
    Status,
    AddNetwork,
    SetNetwork { id: u32, field: String, value: String },
    EnableNetwork { id: u32 },
    RemoveNetwork { id: u32 },
    SaveConfig,
}

/// A request to the supplicant, as mathematical values.
pub enum WpaCommandView {
    Scan,
    ScanResults,
    Status,
    AddNetwork,
    SetNetwork { id: u32, field: Seq<char>, value: Seq<char> },
    EnableNetwork { id: u32 },
    RemoveNetwork { id: u32 },
    SaveConfig,
}

impl View for WpaCommand {
    type V = WpaCommandView;

    open spec fn view(&self) -> WpaCommandView {
        match self {
            WpaCommand::Scan => WpaCommandView::Scan,
            WpaCommand::ScanResults => WpaCommandView::ScanResults,
            WpaCommand::Status => WpaCommandView::Status,
            WpaCommand::AddNetwork => WpaCommandView::AddNetwork,
            WpaCommand::SetNetwork { id, field, value } => WpaCommandView::SetNetwork {
                id: *id,
                field: field@,
                value: value@,
            },
            WpaCommand::EnableNetwork { id } => WpaCommandView::EnableNetwork { id: *id },
            WpaCommand::RemoveNetwork { id } => WpaCommandView::RemoveNetwork { id: *id },
            WpaCommand::SaveConfig => WpaCommandView::SaveConfig,
        }
    }
}

pub open spec fn digit_char(d: nat) -> char {
    if d == 0 {
        '0'
    } else if d == 1 {
        '1'
    } else if d == 2 {
        '2'
    } else if d == 3 {
        '3'
    } else if d == 4 {
        '4'
    } else if d == 5 {
        '5'
    } else if d == 6 {
        '6'
    } else if d == 7 {
        '7'
    } else if d == 8 {
        '8'
    } else {
        '9'
    }
}

/// Decimal digits of `n`, most significant first, without leading zeros.
pub open spec fn decimal(n: nat) -> Seq<char>
    decreases n,
{
    if n < 10 {
        seq![digit_char(n)]
    } else {
        decimal(n / 10).push(digit_char(n % 10))
    }
}

fn digit_str(d: u32) -> (r: &'static str)
    requires
        d < 10,
    ensures
        r@ == seq![digit_char(d as nat)],
{
    proof {
        reveal_strlit("0");
        reveal_strlit("1");
        reveal_strlit("2");
        reveal_strlit("3");
        reveal_strlit("4");
        reveal_strlit("5");
        reveal_strlit("6");
        reveal_strlit("7");
        reveal_strlit("8");
        reveal_strlit("9");
    }
    if d == 0 {
        "0"
    } else if d == 1 {
        "1"
    } else if d == 2 {
        "2"
    } else if d == 3 {
        "3"
    } else if d == 4 {
        "4"
    } else if d == 5 {
        "5"
    } else if d == 6 {
        "6"
    } else if d == 7 {
        "7"
    } else if d == 8 {
        "8"
    } else {
        "9"
    }
}

/// `n` in decimal.
pub fn decimal_text(n: u32) -> (r: String)
    ensures
        r@ == decimal(n as nat),
    decreases n,
{
    if n < 10 {
        String::from_str(digit_str(n))
    } else {
        let mut s = decimal_text(n / 10);
        s.append(digit_str(n % 10));
        s
    }
}

/// The text of a request, as it goes over the socket.
pub open spec fn command_text(c: WpaCommandView) -> Seq<char> {
    match c {
        WpaCommandView::Scan => "SCAN"@,
        WpaCommandView::ScanResults => "SCAN_RESULTS"@,
        WpaCommandView::Status => "STATUS"@,
        WpaCommandView::AddNetwork => "ADD_NETWORK"@,
        WpaCommandView::SetNetwork { id, field, value } => "SET_NETWORK "@ + decimal(id as nat)
            + " "@ + field + " "@ + value,
        WpaCommandView::EnableNetwork { id } => "ENABLE_NETWORK "@ + decimal(id as nat),
        WpaCommandView::RemoveNetwork { id } => "REMOVE_NETWORK "@ + decimal(id as nat),
        WpaCommandView::SaveConfig => "SAVE_CONFIG"@,
    }
}

impl WpaCommand {
    /// The text of this request.
    pub fn text(&self) -> (r: String)
        ensures
            r@ == command_text(self@),
    {
        match self {
            WpaCommand::Scan => String::from_str("SCAN"),
            WpaCommand::ScanResults => String::from_str("SCAN_RESULTS"),
            WpaCommand::Status => String::from_str("STATUS"),
            WpaCommand::AddNetwork => String::from_str("ADD_NETWORK"),
            WpaCommand::SetNetwork { id, field, value } => {
                let mut s = String::from_str("SET_NETWORK ");
                let n = decimal_text(*id);
                s.append(n.as_str());
                s.append(" ");
                s.append(field.as_str());
                s.append(" ");
                s.append(value.as_str());
                s
            },
            WpaCommand::EnableNetwork { id } => {
                let mut s = String::from_str("ENABLE_NETWORK ");
                let n = decimal_text(*id);
                s.append(n.as_str());
                s
            },
            WpaCommand::RemoveNetwork { id } => {
                let mut s = String::from_str("REMOVE_NETWORK ");
                let n = decimal_text(*id);
                s.append(n.as_str());
                s
            },
            WpaCommand::SaveConfig => String::from_str("SAVE_CONFIG"),
        }
    }
}

/// How the client treats one message read from the control socket.
#[derive(Debug, Clone, Copy, PartialEq, Eq)]
pub enum ReplyVerdict {
    /// An event the daemon sent on its own: skip it and read on.
    Unsolicited,
    /// The daemon refused the request, or answered with nothing.
    Failure,
    /// The answer to the request.
    Reply,
}

pub open spec fn ascii_lower(b: u8) -> u8 {
    if 0x41 <= b <= 0x5a {
        (b + 0x20) as u8
    } else {
        b
    }
}

/// The message is the word FAIL, in any letter case.
pub open spec fn is_fail_word(b: Seq<u8>) -> bool {
    &&& b.len() == 4
    &&& ascii_lower(b[0]) == 0x66
    &&& ascii_lower(b[1]) == 0x61
    &&& ascii_lower(b[2]) == 0x69
    &&& ascii_lower(b[3]) == 0x6c
}

/// The message starts with "FAIL" (as "FAIL-BUSY" does).
pub open spec fn starts_with_fail(b: Seq<u8>) -> bool {
    &&& b.len() >= 4
    &&& b[0] == 0x46
    &&& b[1] == 0x41
    &&& b[2] == 0x49
    &&& b[3] == 0x4c
}

/// Unsolicited events start with '<' (their priority level).
pub open spec fn is_unsolicited(b: Seq<u8>) -> bool {
    b.len() > 0 && b[0] == 0x3c
}

/// The verdict on a message: events are skipped; a failure marker or an
/// empty message fails the request; anything else is the reply.
pub open spec fn reply_verdict(b: Seq<u8>) -> ReplyVerdict {
    if is_unsolicited(b) {
        ReplyVerdict::Unsolicited
    } else if b.len() == 0 || is_fail_word(b) || starts_with_fail(b) {
        ReplyVerdict::Failure
    } else {
        ReplyVerdict::Reply
    }
}

/// Relies on wpa_ctrl's `WpaControlMessage::is_unsolicited`: true when the
/// message's first byte is '<'.
#[verifier::external_body]
fn message_is_unsolicited(raw: &str) -> (r: bool)
    ensures
        r == is_unsolicited(raw.spec_bytes()),
{
    wpa_ctrl::WpaControlMessage { raw }.is_unsolicited()
}

/// Relies on wpa_ctrl's `WpaControlMessage::as_fail`: `Some` when the
/// message equals "fail" ignoring ASCII case.
#[verifier::external_body]
fn message_is_fail(raw: &str) -> (r: bool)
    ensures
        r == is_fail_word(raw.spec_bytes()),
{
    wpa_ctrl::WpaControlMessage { raw }.as_fail().is_some()
}

/// Classifies one message read after a request.
pub fn classify_reply(raw: &str) -> (r: ReplyVerdict)
    ensures
        r == reply_verdict(raw.spec_bytes()),
{
    if message_is_unsolicited(raw) {
        return ReplyVerdict::Unsolicited;
    }
    let b = raw.as_bytes();
    if b.len() == 0 || message_is_fail(raw) {
        return ReplyVerdict::Failure;
    }
    if b.len() >= 4 && b[0] == 0x46 && b[1] == 0x41 && b[2] == 0x49 && b[3] == 0x4c {
        ReplyVerdict::Failure
    } else {
        ReplyVerdict::Reply
    }
}

/// The network id in the reply to `ADD_NETWORK`: a decimal number, with
/// white space around it ignored.
pub fn parse_network_id(reply: &str) -> (r: Option<u32>)
    ensures
        r == parse_u32_spec(trim_spec(reply.spec_bytes())),
{
    let t = trim_ascii(reply.as_bytes());
    parse_u32(t.as_slice())
}

/// The key of a `key=value` line: the text before its first '='.
pub open spec fn key_of(line: Seq<u8>) -> Seq<u8> {
    line.take(index_from(line, 0, 0x3d) as int)
}

/// The value of a `key=value` line: the text after its first '='.
pub open spec fn value_of(line: Seq<u8>) -> Seq<u8> {
    line.skip(index_from(line, 0, 0x3d) + 1 as int)
}

pub open spec fn wpa_state_key() -> Seq<u8> {
    seq![0x77u8, 0x70, 0x61, 0x5f, 0x73, 0x74, 0x61, 0x74, 0x65]
}

/// Whether a line of `STATUS` carries the `wpa_state` field.
pub open spec fn is_state_line(line: Seq<u8>) -> bool {
    index_from(line, 0, 0x3d) < line.len() && key_of(line) == wpa_state_key()
}

/// The value of the first `wpa_state=` line from the line at `i` on.
pub open spec fn state_from(s: Seq<u8>, i: nat) -> Option<Seq<u8>>
    decreases s.len() - i via state_from_decreases
{
    if i >= s.len() {
        None
    } else if is_state_line(line_at(s, i)) {
        Some(value_of(line_at(s, i)))
    } else {
        let e = index_from(s, i, NEWLINE);
        if e < s.len() {
            state_from(s, e + 1)
        } else {
            None
        }
    }
}

#[via_fn]
proof fn state_from_decreases(s: Seq<u8>, i: nat) {
    lemma_index_from_bounds(s, i, NEWLINE);
}

/// The `wpa_state` of a `STATUS` reply, empty when no line carries it.
pub open spec fn wpa_state_of(s: Seq<u8>) -> Seq<u8> {
    match state_from(s, 0) {
        Some(v) => v,
        None => Seq::empty(),
    }
}

fn state_line_value(line: &[u8]) -> (r: Option<Vec<u8>>)
    ensures
        match r {
            Some(v) => is_state_line(line@) && v@ == value_of(line@),
            None => !is_state_line(line@),
        },
{
    let eq = find_byte(line, 0, 0x3d);
    if eq >= line.len() {
        return None;
    }
    let key: Vec<u8> = vec![0x77u8, 0x70, 0x61, 0x5f, 0x73, 0x74, 0x61, 0x74, 0x65];
    if eq != key.len() {
        assert(key_of(line@).len() != wpa_state_key().len());
        return None;
    }
    let mut k: usize = 0;
    while k < eq
        invariant
            eq == 9,
            eq == index_from(line@, 0, 0x3d),
            key@ == wpa_state_key(),
            eq < line@.len(),
            k <= eq,
            forall|m: int| 0 <= m < k ==> line@[m] == key@[m],
        decreases eq - k,
    {
        if line[k] != key[k] {
            assert(key_of(line@)[k as int] != wpa_state_key()[k as int]);
            return None;
        }
        k += 1;
    }
    assert(key_of(line@) =~= wpa_state_key());
    let v = copy_range(line, eq + 1, line.len());
    assert(v@ =~= value_of(line@));
    Some(v)
}

/// The `wpa_state` value of a `STATUS` reply: the text after the first '='
/// of the first line whose key is `wpa_state`; empty if there is none.
pub fn parse_wpa_state(status: &str) -> (r: Vec<u8>)
    ensures
        r@ == wpa_state_of(status.spec_bytes()),
{
    let bs = status.as_bytes();
    let ghost s = bs@;
    let mut i: usize = 0;
    while i < bs.len()
        invariant
            bs@ == s,
            s == status.spec_bytes(),
            i <= s.len(),
            state_from(s, i as nat) == state_from(s, 0),
        decreases bs.len() - i,
    {
        let e = find_byte(bs, i, NEWLINE);
        let end = if e < bs.len() && e > i && bs[e - 1] == 0x0d {
            e - 1
        } else {
            e
        };
        let line = copy_range(bs, i, end);
        assert(line@ == line_at(s, i as nat));
        match state_line_value(line.as_slice()) {
            Some(v) => {
                return v;
            },
            None => {},
        }
        if e >= bs.len() {
            return Vec::new();
        }
        i = e + 1;
    }
    Vec::new()
}

} // verus!
