//! SSID text as the supplicant prints it: bytes outside printable ASCII are
//! shown as `\xHH`, and a backslash as `\\`.
use vstd::prelude::*;
use vstd::string::StringSliceAdditionalSpecFns;

verus! {

pub const BACKSLASH: u8 = 0x5c;

/// Value of an ASCII hexadecimal digit (either case), if `b` is one.
pub open spec fn hex_digit_value(b: u8) -> Option<u8> {
    if 0x30 <= b <= 0x39 {
        Some((b - 0x30) as u8)
    } else if 0x61 <= b <= 0x66 {
        Some((b - 0x61 + 10) as u8)
    } else if 0x41 <= b <= 0x46 {
        Some((b - 0x41 + 10) as u8)
    } else {
        None
    }
}

/// The byte that two hexadecimal digits denote, high nibble first.
pub open spec fn hex_pair_value(h1: u8, h2: u8) -> u8
    recommends
        hex_digit_value(h1) is Some,
        hex_digit_value(h2) is Some,
{
    (hex_digit_value(h1)->Some_0 * 16 + hex_digit_value(h2)->Some_0) as u8
}

pub open spec fn is_x(b: u8) -> bool {
    b == 0x78 || b == 0x58
}

/// Whether `s` starts with a well-formed `\xHH` (or `\XHH`) escape.
pub open spec fn starts_with_hex_escape(s: Seq<u8>) -> bool {
    &&& s.len() >= 4
    &&& s[0] == BACKSLASH
    &&& is_x(s[1])
    &&& hex_digit_value(s[2]) is Some
    &&& hex_digit_value(s[3]) is Some
}

/// Decoding of supplicant SSID text, read from the front: `\xHH` gives the
/// byte it denotes, `\\` gives one backslash, a backslash before any other
/// byte is kept with that byte, a backslash at the very end is kept, and
/// every other byte stands for itself.
pub open spec fn unescape_bytes(s: Seq<u8>) -> Seq<u8>
    decreases s.len(),
{
    if s.len() == 0 {
        Seq::empty()
    } else if s[0] != BACKSLASH {
        seq![s[0]] + unescape_bytes(s.skip(1))
    } else if s.len() == 1 {
        seq![BACKSLASH]
    } else if is_x(s[1]) {
        if starts_with_hex_escape(s) {
            seq![hex_pair_value(s[2], s[3])] + unescape_bytes(s.skip(4))
        } else {
            seq![BACKSLASH] + unescape_bytes(s.skip(1))
        }
    } else if s[1] == BACKSLASH {
        seq![BACKSLASH] + unescape_bytes(s.skip(2))
    } else {
        seq![BACKSLASH, s[1]] + unescape_bytes(s.skip(2))
    }
}

/// Lower-case hexadecimal digit for a nibble.
pub open spec fn hex_digit_char(n: u8) -> u8 {
    if n < 10 {
        (0x30 + n) as u8
    } else {
        (0x61 + n - 10) as u8
    }
}

/// How the supplicant prints one SSID byte: printable ASCII as itself, a
/// backslash doubled, anything else as `\xHH`.
pub open spec fn escape_byte(b: u8) -> Seq<u8> {
    if b == BACKSLASH {
        seq![BACKSLASH, BACKSLASH]
    } else if 0x20 <= b < 0x7f {
        seq![b]
    } else {
        seq![BACKSLASH, 0x78u8, hex_digit_char(b / 16), hex_digit_char(b % 16)]
    }
}

/// How the supplicant prints an SSID.
pub open spec fn escape_bytes(b: Seq<u8>) -> Seq<u8>
    decreases b.len(),
{
    if b.len() == 0 {
        Seq::empty()
    } else {
        escape_byte(b[0]) + escape_bytes(b.skip(1))
    }
}

fn hex_val(b: u8) -> (r: Option<u8>)
    ensures
        r == hex_digit_value(b),
{
    if 0x30 <= b && b <= 0x39 {
        Some(b - 0x30)
    } else if 0x61 <= b && b <= 0x66 {
        Some(b - 0x61 + 10)
    } else if 0x41 <= b && b <= 0x46 {
        Some(b - 0x41 + 10)
    } else {
        None
    }
}

/// Turns the escapes in an SSID field of the supplicant back into the raw
/// bytes; unknown escapes stay as they are.
pub fn unescape_wpa_ssid(s: &str) -> (r: Vec<u8>)
    ensures
        r@ == unescape_bytes(s.spec_bytes()),
{
    unescape_wpa_ssid_bytes(s.as_bytes())
}

/// `unescape_wpa_ssid` on the bytes of the field.
pub fn unescape_wpa_ssid_bytes(bs: &[u8]) -> (r: Vec<u8>)
    ensures
        r@ == unescape_bytes(bs@),
{
    let ghost all = bs@;
    let mut out: Vec<u8> = Vec::with_capacity(bs.len());
    let mut i: usize = 0;
    assert(all.skip(0) =~= all);
    assert(out@ + unescape_bytes(all) =~= unescape_bytes(all));
    while i < bs.len()
        invariant
            bs@ == all,
            0 <= i <= bs.len(),
            out@ + unescape_bytes(all.skip(i as int)) == unescape_bytes(all),
        decreases bs.len() - i,
    {
        let ghost rest = all.skip(i as int);
        assert(rest.skip(1) =~= all.skip(i + 1));
        if bs[i] != BACKSLASH {
            out.push(bs[i]);
            i += 1;
            assert(out@ + unescape_bytes(all.skip(i as int)) =~= unescape_bytes(all));
        } else if i + 1 >= bs.len() {
            out.push(BACKSLASH);
            i += 1;
            assert(all.skip(i as int) =~= Seq::<u8>::empty());
            assert(out@ + unescape_bytes(all.skip(i as int)) =~= unescape_bytes(all));
        } else if bs[i + 1] == 0x78 || bs[i + 1] == 0x58 {
            let mut done = false;
            if bs.len() - i > 3 {
                let h1 = hex_val(bs[i + 2]);
                let h2 = hex_val(bs[i + 3]);
                if let (Some(v1), Some(v2)) = (h1, h2) {
                    assert(rest.skip(4) =~= all.skip(i + 4));
                    out.push(v1 * 16 + v2);
                    i += 4;
                    done = true;
                    assert(out@ + unescape_bytes(all.skip(i as int)) =~= unescape_bytes(all));
                }
            }
            if !done {
                out.push(BACKSLASH);
                i += 1;
                assert(out@ + unescape_bytes(all.skip(i as int)) =~= unescape_bytes(all));
            }
        } else if bs[i + 1] == BACKSLASH {
            assert(rest.skip(2) =~= all.skip(i + 2));
            out.push(BACKSLASH);
            i += 2;
            assert(out@ + unescape_bytes(all.skip(i as int)) =~= unescape_bytes(all));
        } else {
            assert(rest.skip(2) =~= all.skip(i + 2));
            let other = bs[i + 1];
            out.push(BACKSLASH);
            out.push(other);
            i += 2;
            assert(out@ + unescape_bytes(all.skip(i as int)) =~= unescape_bytes(all));
        }
    }
    assert(all.skip(i as int) =~= Seq::<u8>::empty());
    assert(out@ =~= out@ + unescape_bytes(all.skip(i as int)));
    out
}

proof fn lemma_hex_digit_round_trip(n: u8)
    requires
        n < 16,
    ensures
        hex_digit_value(hex_digit_char(n)) == Some(n),
{
}

proof fn lemma_unescape_escaped_byte(b: u8, t: Seq<u8>)
    ensures
        unescape_bytes(escape_byte(b) + t) == seq![b] + unescape_bytes(t),
{
    let s = escape_byte(b) + t;
    if b == BACKSLASH {
        assert(s.skip(2) =~= t);
    } else if 0x20 <= b < 0x7f {
        assert(s.skip(1) =~= t);
    } else {
        lemma_hex_digit_round_trip(b / 16);
        lemma_hex_digit_round_trip(b % 16);
        assert(s.skip(4) =~= t);
        assert(starts_with_hex_escape(s));
        assert(hex_pair_value(s[2], s[3]) == b) by (nonlinear_arith)
            requires
                hex_digit_value(s[2]) == Some((b / 16) as u8),
                hex_digit_value(s[3]) == Some((b % 16) as u8),
        ;
    }
}

/// Decoding what the supplicant printed for `a`, followed by any text `t`,
/// gives `a` back, followed by the decoding of `t`.
pub proof fn lemma_unescape_escaped_prefix(a: Seq<u8>, t: Seq<u8>)
    ensures
        unescape_bytes(escape_bytes(a) + t) == a + unescape_bytes(t),
    decreases a.len(),
{
    if a.len() == 0 {
        assert(escape_bytes(a) + t =~= t);
        assert(a + unescape_bytes(t) =~= unescape_bytes(t));
    } else {
        let rest = a.skip(1);
        lemma_unescape_escaped_prefix(rest, t);
        assert(escape_bytes(a) + t =~= escape_byte(a[0]) + (escape_bytes(rest) + t));
        lemma_unescape_escaped_byte(a[0], escape_bytes(rest) + t);
        assert(a =~= seq![a[0]] + rest);
    }
}

/// Round trip: decoding the supplicant's printing of any byte string gives
/// that byte string back.
pub proof fn lemma_ssid_round_trip(b: Seq<u8>)
    ensures
        unescape_bytes(escape_bytes(b)) == b,
{
    lemma_unescape_escaped_prefix(b, Seq::empty());
    assert(escape_bytes(b) + Seq::<u8>::empty() =~= escape_bytes(b));
    assert(b + unescape_bytes(Seq::<u8>::empty()) =~= b);
}

/// A well-formed `\xHH` escape decodes to the one byte its digits denote,
/// wherever it stands after escaped text.
pub proof fn lemma_hex_escape_decodes(a: Seq<u8>, e: Seq<u8>, t: Seq<u8>)
    requires
        e.len() == 4,
        starts_with_hex_escape(e),
    ensures
        unescape_bytes(escape_bytes(a) + e + t) == a + seq![hex_pair_value(e[2], e[3])]
            + unescape_bytes(t),
{
    let s = e + t;
    assert(s.skip(4) =~= t);
    assert(starts_with_hex_escape(s));
    assert(unescape_bytes(s) == seq![hex_pair_value(e[2], e[3])] + unescape_bytes(t));
    lemma_unescape_escaped_prefix(a, s);
    assert(escape_bytes(a) + e + t =~= escape_bytes(a) + s);
    assert(a + unescape_bytes(s) =~= a + seq![hex_pair_value(e[2], e[3])] + unescape_bytes(t));
}

} // verus!
