//! Byte-level text helpers: searching, splitting and decimal numbers.
use vstd::prelude::*;

verus! {

/// Position of the first `c` in `s` at or after `i`, or `s.len()` if none.
pub open spec fn index_from(s: Seq<u8>, i: nat, c: u8) -> nat
    decreases s.len() - i,
{
    if i >= s.len() {
        s.len()
    } else if s[i as int] == c {
        i
    } else {
        index_from(s, i + 1, c)
    }
}

pub proof fn lemma_index_from_bounds(s: Seq<u8>, i: nat, c: u8)
    ensures
        i <= s.len() ==> i <= index_from(s, i, c) <= s.len(),
        i > s.len() ==> index_from(s, i, c) == s.len(),
        index_from(s, i, c) < s.len() ==> s[index_from(s, i, c) as int] == c,
        forall|j: int| i <= j < index_from(s, i, c) ==> s[j] != c,
    decreases s.len() - i,
{
    if i < s.len() && s[i as int] != c {
        lemma_index_from_bounds(s, i + 1, c);
    }
}

pub fn find_byte(s: &[u8], start: usize, c: u8) -> (r: usize)
    requires
        start <= s@.len(),
    ensures
        r == index_from(s@, start as nat, c),
        start <= r <= s@.len(),
{
    let mut j = start;
    while j < s.len()
        invariant
            start <= j <= s@.len(),
            index_from(s@, j as nat, c) == index_from(s@, start as nat, c),
        decreases s.len() - j,
    {
        if s[j] == c {
            return j;
        }
        j += 1;
    }
    j
}

/// The pieces of `s` from position `i` on, cut at every `c` (an empty text
/// gives one empty piece, as `str::split` does).
pub open spec fn split_from(s: Seq<u8>, i: nat, c: u8) -> Seq<Seq<u8>>
    decreases s.len() - i via split_from_decreases
{
    let e = index_from(s, i, c);
    if e >= s.len() {
        seq![s.subrange(i as int, s.len() as int)]
    } else {
        seq![s.subrange(i as int, e as int)] + split_from(s, e + 1, c)
    }
}

#[via_fn]
proof fn split_from_decreases(s: Seq<u8>, i: nat, c: u8) {
    lemma_index_from_bounds(s, i, c);
}

/// The bytes of `s` in `[a, b)`, as a vector of their own.
pub fn copy_range(s: &[u8], a: usize, b: usize) -> (r: Vec<u8>)
    requires
        a <= b <= s@.len(),
    ensures
        r@ == s@.subrange(a as int, b as int),
{
    let mut r: Vec<u8> = Vec::with_capacity(b - a);
    let mut k = a;
    while k < b
        invariant
            a <= k <= b <= s@.len(),
            r@ == s@.subrange(a as int, k as int),
        decreases b - k,
    {
        r.push(s[k]);
        k += 1;
        assert(r@ =~= s@.subrange(a as int, k as int));
    }
    r
}

pub open spec fn views_of(v: Seq<Vec<u8>>) -> Seq<Seq<u8>> {
    v.map_values(|x: Vec<u8>| x@)
}

/// The pieces of `s` cut at every `c`, as `str::split` gives them.
pub fn split_bytes(s: &[u8], c: u8) -> (r: Vec<Vec<u8>>)
    ensures
        views_of(r@) == split_from(s@, 0, c),
{
    let mut r: Vec<Vec<u8>> = Vec::new();
    let mut i: usize = 0;
    assert(views_of(r@) + split_from(s@, 0, c) =~= split_from(s@, 0, c));
    loop
        invariant
            i <= s@.len(),
            views_of(r@) + split_from(s@, i as nat, c) == split_from(s@, 0, c),
        decreases s@.len() - i,
    {
        let e = find_byte(s, i, c);
        let piece = copy_range(s, i, e);
        let ghost before = views_of(r@);
        r.push(piece);
        assert(views_of(r@) =~= before.push(piece@));
        if e >= s.len() {
            assert(views_of(r@) =~= views_of(r@) + Seq::<Seq<u8>>::empty());
            assert(views_of(r@) =~= before + split_from(s@, i as nat, c));
            return r;
        }
        assert(before + split_from(s@, i as nat, c) =~= views_of(r@) + split_from(s@, (e + 1) as nat, c));
        i = e + 1;
    }
}

pub open spec fn is_digit(b: u8) -> bool {
    0x30 <= b <= 0x39
}

pub open spec fn all_digits(d: Seq<u8>) -> bool {
    forall|k: int| 0 <= k < d.len() ==> is_digit(#[trigger] d[k])
}

/// The number that a run of decimal digits spells.
pub open spec fn digits_value(d: Seq<u8>) -> nat
    decreases d.len(),
{
    if d.len() == 0 {
        0
    } else {
        digits_value(d.drop_last()) * 10 + (d.last() - 0x30) as nat
    }
}

/// The magnitude of a signed decimal number, as `i16::from_str` reads it:
/// an optional sign, then at least one digit and nothing else. The boolean
/// tells whether the sign was `-`.
pub open spec fn signed_digits(f: Seq<u8>) -> (bool, Seq<u8>) {
    if f.len() > 0 && f[0] == 0x2d {
        (true, f.skip(1))
    } else if f.len() > 0 && f[0] == 0x2b {
        (false, f.skip(1))
    } else {
        (false, f)
    }
}

/// `i16::from_str` on these bytes: `None` where it reports an error.
pub open spec fn parse_i16_spec(f: Seq<u8>) -> Option<i16> {
    let (neg, d) = signed_digits(f);
    if d.len() == 0 || !all_digits(d) {
        None
    } else if neg {
        if digits_value(d) <= 32768 {
            Some((-digits_value(d)) as i16)
        } else {
            None
        }
    } else if digits_value(d) <= 32767 {
        Some(digits_value(d) as i16)
    } else {
        None
    }
}

/// Reads a decimal number into a magnitude, saturating at `cap + 1`.
fn read_digits(f: &[u8], start: usize, cap: u64) -> (r: Option<u64>)
    requires
        start <= f@.len(),
        cap < 1_000_000_000_000,
    ensures
        match r {
            None => !all_digits(f@.skip(start as int)),
            Some(v) => all_digits(f@.skip(start as int)) && (
                if digits_value(f@.skip(start as int)) <= cap {
                    v == digits_value(f@.skip(start as int))
                } else {
                    v == cap + 1
                }),
        },
{
    let ghost d = f@.skip(start as int);
    let mut acc: u64 = 0;
    let mut k = start;
    assert(d.take(0) =~= Seq::<u8>::empty());
    while k < f.len()
        invariant
            start <= k <= f@.len(),
            d == f@.skip(start as int),
            cap < 1_000_000_000_000,
            all_digits(d.take(k - start)),
            if digits_value(d.take(k - start)) <= cap {
                acc == digits_value(d.take(k - start))
            } else {
                acc == cap + 1
            },
        decreases f.len() - k,
    {
        let b = f[k];
        if b < 0x30 || b > 0x39 {
            assert(!is_digit(d[k - start]));
            return None;
        }
        let ghost pre = d.take(k - start);
        let ghost next = d.take(k - start + 1);
        assert(next.drop_last() =~= pre);
        assert(next.last() == b);
        assert(digits_value(next) == digits_value(pre) * 10 + (b - 0x30) as nat);
        assert(all_digits(next)) by {
            assert forall|j: int| 0 <= j < next.len() implies is_digit(#[trigger] next[j]) by {
                if j < pre.len() {
                    assert(next[j] == pre[j]);
                }
            }
        }
        if acc > cap {
            assert(digits_value(next) > cap) by (nonlinear_arith)
                requires
                    digits_value(pre) > cap,
                    digits_value(next) == digits_value(pre) * 10 + (b - 0x30) as nat,
            ;
        } else {
            assert(acc * 10 + 9 < 10_000_000_000_009) by (nonlinear_arith)
                requires
                    acc <= cap,
                    cap < 1_000_000_000_000,
            ;
            let v = acc * 10 + (b - 0x30) as u64;
            if v > cap {
                acc = cap + 1;
            } else {
                acc = v;
            }
        }
        k += 1;
    }
    assert(d.take(k - start) =~= d);
    Some(acc)
}

/// Parses a signed 16-bit decimal number as `i16::from_str` does.
pub fn parse_i16(f: &[u8]) -> (r: Option<i16>)
    ensures
        r == parse_i16_spec(f@),
{
    let (neg, start): (bool, usize) = if f.len() > 0 && f[0] == 0x2d {
        (true, 1)
    } else if f.len() > 0 && f[0] == 0x2b {
        (false, 1)
    } else {
        (false, 0)
    };
    assert(f@.skip(0) =~= f@);
    assert(signed_digits(f@) == (neg, f@.skip(start as int)));
    if start >= f.len() {
        assert(f@.skip(start as int).len() == 0);
        return None;
    }
    let cap: u64 = if neg { 32768 } else { 32767 };
    match read_digits(f, start, cap) {
        None => None,
        Some(v) => {
            if v > cap {
                None
            } else if neg {
                Some((0 - (v as i32)) as i16)
            } else {
                Some(v as i16)
            }
        },
    }
}

/// Whether `pat` occurs in `s` starting at `i`.
pub open spec fn occurs_at(s: Seq<u8>, pat: Seq<u8>, i: int) -> bool {
    0 <= i && i + pat.len() <= s.len() && s.subrange(i, i + pat.len()) == pat
}

/// Whether `pat` occurs anywhere in `s`.
pub open spec fn contains_bytes(s: Seq<u8>, pat: Seq<u8>) -> bool {
    exists|i: int| occurs_at(s, pat, i)
}

pub fn contains(s: &[u8], pat: &[u8]) -> (r: bool)
    ensures
        r == contains_bytes(s@, pat@),
{
    if pat.len() > s.len() {
        return false;
    }
    let slen = s.len();
    let last = slen - pat.len();
    let mut i: usize = 0;
    while i <= last
        invariant
            slen == s@.len(),
            pat@.len() <= s@.len(),
            last == s@.len() - pat@.len(),
            forall|j: int| 0 <= j < i ==> !occurs_at(s@, pat@, j),
        decreases last + 1 - i,
    {
        let mut k: usize = 0;
        let mut same = true;
        while k < pat.len()
            invariant
                i <= last,
                slen == s@.len(),
                pat@.len() <= s@.len(),
                last == s@.len() - pat@.len(),
                k <= pat@.len(),
                same == (forall|m: int| 0 <= m < k ==> s@[i + m] == pat@[m]),
            decreases pat.len() - k,
        {
            assert(i + k < s@.len());
            let at: usize = i + k;
            if s[at] != pat[k] {
                same = false;
            }
            k += 1;
        }
        if same {
            assert(s@.subrange(i as int, i + pat@.len()) =~= pat@);
            assert(occurs_at(s@, pat@, i as int));
            return true;
        }
        assert(!occurs_at(s@, pat@, i as int)) by {
            let m = choose|m: int| 0 <= m < pat@.len() && s@[i + m] != pat@[m];
            if s@.subrange(i as int, i + pat@.len()) == pat@ {
                assert(s@.subrange(i as int, i + pat@.len())[m] == s@[i + m]);
            }
        }
        if i == last {
            assert forall|j: int| !occurs_at(s@, pat@, j) by {
                if occurs_at(s@, pat@, j) {
                    assert(j <= last);
                }
            }
            return false;
        }
        i += 1;
    }
    assert forall|j: int| !occurs_at(s@, pat@, j) by {
        if occurs_at(s@, pat@, j) {
            assert(j <= last);
        }
    }
    false
}

/// `u32::from_str` on these bytes: an optional `+`, then at least one digit
/// and nothing else, at most `u32::MAX`.
pub open spec fn parse_u32_spec(f: Seq<u8>) -> Option<u32> {
    let d = if f.len() > 0 && f[0] == 0x2b {
        f.skip(1)
    } else {
        f
    };
    if d.len() == 0 || !all_digits(d) || digits_value(d) > 0xffff_ffff {
        None
    } else {
        Some(digits_value(d) as u32)
    }
}

/// Parses an unsigned 32-bit decimal number as `u32::from_str` does.
pub fn parse_u32(f: &[u8]) -> (r: Option<u32>)
    ensures
        r == parse_u32_spec(f@),
{
    let start: usize = if f.len() > 0 && f[0] == 0x2b {
        1
    } else {
        0
    };
    assert(f@.skip(0) =~= f@);
    if start >= f.len() {
        assert(f@.skip(start as int).len() == 0);
        return None;
    }
    match read_digits(f, start, 0xffff_ffff) {
        None => None,
        Some(v) => {
            if v > 0xffff_ffff {
                None
            } else {
                Some(v as u32)
            }
        },
    }
}

/// Space, tab, line feed, vertical tab, form feed or carriage return.
pub open spec fn is_ascii_space(b: u8) -> bool {
    b == 0x20 || (0x09 <= b <= 0x0d)
}

/// `s` without the ASCII white space at its two ends.
pub open spec fn trim_spec(s: Seq<u8>) -> Seq<u8>
    decreases s.len(),
{
    if s.len() > 0 && is_ascii_space(s[0]) {
        trim_spec(s.skip(1))
    } else if s.len() > 0 && is_ascii_space(s.last()) {
        trim_spec(s.drop_last())
    } else {
        s
    }
}

proof fn lemma_trim_end(s: Seq<u8>)
    requires
        s.len() == 0 || !is_ascii_space(s[0]),
    ensures
        s.len() > 0 && is_ascii_space(s.last()) ==> trim_spec(s) == trim_spec(s.drop_last()),
        trim_spec(s).len() == 0 || !is_ascii_space(trim_spec(s)[0]),
    decreases s.len(),
{
    if s.len() > 0 && is_ascii_space(s.last()) {
        let t = s.drop_last();
        if t.len() > 0 {
            assert(t[0] == s[0]);
        }
        lemma_trim_end(t);
    }
}

/// The bytes of `s` without ASCII white space at either end.
pub fn trim_ascii(s: &[u8]) -> (r: Vec<u8>)
    ensures
        r@ == trim_spec(s@),
{
    let mut a: usize = 0;
    assert(s@.skip(0) =~= s@);
    while a < s.len() && (s[a] == 0x20 || (0x09 <= s[a] && s[a] <= 0x0d))
        invariant
            a <= s@.len(),
            trim_spec(s@.skip(a as int)) == trim_spec(s@),
        decreases s.len() - a,
    {
        assert(s@.skip(a as int).skip(1) =~= s@.skip(a + 1));
        a += 1;
    }
    let mut b: usize = s.len();
    assert(s@.subrange(a as int, b as int) =~= s@.skip(a as int));
    while b > a && (s[b - 1] == 0x20 || (0x09 <= s[b - 1] && s[b - 1] <= 0x0d))
        invariant
            a <= b <= s@.len(),
            a < s@.len() ==> !is_ascii_space(s@[a as int]),
            trim_spec(s@.subrange(a as int, b as int)) == trim_spec(s@),
        decreases b - a,
    {
        let ghost t = s@.subrange(a as int, b as int);
        proof {
            lemma_trim_end(t);
        }
        assert(t.drop_last() =~= s@.subrange(a as int, b - 1));
        b -= 1;
    }
    let ghost t = s@.subrange(a as int, b as int);
    assert(t.len() == 0 || !is_ascii_space(t[0]));
    assert(t.len() == 0 || !is_ascii_space(t.last()));
    copy_range(s, a, b)
}

} // verus!
