//! Readiness-marker parsing.  The backend announces its actual listening
//! port with a line such as `Server at http://localhost:9911 started` on its
//! standard output; the relay scans every stdout line for the marker
//! `http://localhost:` and parses the digits that immediately follow it as a
//! port number.  Lines are handled as raw bytes, exactly as they arrive from
//! the child's output stream; the marker and the digits are ASCII, so no
//! decoding step can change what is found.

use vstd::prelude::*;

verus! {

broadcast use vstd::slice::axiom_spec_len;

/// The marker that precedes the self-announced port: the bytes of
/// `http://localhost:`.
pub open spec fn ready_marker() -> Seq<u8> {
    seq![
        'h' as u8,
        't' as u8,
        't' as u8,
        'p' as u8,
        ':' as u8,
        '/' as u8,
        '/' as u8,
        'l' as u8,
        'o' as u8,
        'c' as u8,
        'a' as u8,
        'l' as u8,
        'h' as u8,
        'o' as u8,
        's' as u8,
        't' as u8,
        ':' as u8,
    ]
}

/// The marker occurs in `s` starting at position `i`.
pub open spec fn marker_at(s: Seq<u8>, i: int) -> bool {
    &&& 0 <= i
    &&& i + ready_marker().len() <= s.len()
    &&& s.subrange(i, i + ready_marker().len() as int) == ready_marker()
}

/// The position of the first marker occurrence at or after `i`, if any.
pub open spec fn first_marker_from(s: Seq<u8>, i: int) -> Option<int>
    decreases s.len() - i,
    when 0 <= i <= s.len()
{
    if i + ready_marker().len() > s.len() {
        None
    } else if marker_at(s, i) {
        Some(i)
    } else {
        first_marker_from(s, i + 1)
    }
}

/// An ASCII decimal digit.
pub open spec fn is_digit(b: u8) -> bool {
    48 <= b <= 57
}

/// The length of the run of ASCII digits in `s` starting at `i`.
pub open spec fn digit_run(s: Seq<u8>, i: int) -> nat
    decreases s.len() - i,
    when 0 <= i <= s.len()
{
    if i < s.len() && is_digit(s[i]) {
        (1 + digit_run(s, i + 1)) as nat
    } else {
        0
    }
}

/// The value of a sequence of ASCII digits read as a decimal number.
pub open spec fn dec_val(digits: Seq<u8>) -> nat
    decreases digits.len(),
{
    if digits.len() == 0 {
        0nat
    } else {
        (dec_val(digits.drop_last()) * 10 + (digits.last() - 48)) as nat
    }
}

/// What a stdout line announces: if the line contains the marker, take its
/// first occurrence, read the run of digits immediately after it, and accept
/// the run as a port if it is non-empty and its decimal value fits a `u16`.
/// Lines without a marker, with no digit after the marker, or with a value
/// too large for a port announce nothing.
pub open spec fn spec_ready_port(s: Seq<u8>) -> Option<u16> {
    match first_marker_from(s, 0) {
        None => None,
        Some(i) => {
            let after = i + ready_marker().len();
            let k = digit_run(s, after) as int;
            if k == 0 {
                None
            } else {
                let v = dec_val(s.subrange(after, after + k));
                if v <= 0xFFFF {
                    Some(v as u16)
                } else {
                    None
                }
            }
        },
    }
}

/// The marker as bytes, for the scanning loop.
fn ready_marker_bytes() -> (m: Vec<u8>)
    ensures
        m@ == ready_marker(),
{
    let mut m: Vec<u8> = Vec::new();
    m.push('h' as u8);
    m.push('t' as u8);
    m.push('t' as u8);
    m.push('p' as u8);
    m.push(':' as u8);
    m.push('/' as u8);
    m.push('/' as u8);
    m.push('l' as u8);
    m.push('o' as u8);
    m.push('c' as u8);
    m.push('a' as u8);
    m.push('l' as u8);
    m.push('h' as u8);
    m.push('o' as u8);
    m.push('s' as u8);
    m.push('t' as u8);
    m.push(':' as u8);
    proof {
        assert(m@ =~= ready_marker());
    }
    m
}

/// Whether `marker` occurs in `s` at position `i`.
fn matches_at(s: &[u8], marker: &Vec<u8>, i: usize) -> (r: bool)
    requires
        i + marker@.len() <= s@.len(),
    ensures
        r == (s@.subrange(i as int, i as int + marker@.len() as int) =~= marker@),
{
    let n: usize = s.len();
    let mut j: usize = 0;
    while j < marker.len()
        invariant
            j <= marker@.len(),
            i + marker@.len() <= s@.len(),
            s@.len() == n,
            forall|t: int| 0 <= t < j ==> s@[i + t] == marker@[t],
        decreases marker@.len() - j,
    {
        if s[i + j] != marker[j] {
            proof {
                assert(s@.subrange(i as int, i as int + marker@.len() as int)[j as int]
                    != marker@[j as int]);
            }
            return false;
        }
        j += 1;
    }
    proof {
        assert(s@.subrange(i as int, i as int + marker@.len() as int) =~= marker@);
    }
    true
}

/// The position of the first marker occurrence in `s`, if any.
fn find_first_marker(s: &[u8], marker: &Vec<u8>) -> (r: Option<usize>)
    requires
        marker@ == ready_marker(),
    ensures
        match r {
            Some(i) => first_marker_from(s@, 0) == Some(i as int) && marker_at(s@, i as int),
            None => first_marker_from(s@, 0) is None,
        },
{
    if s.len() < marker.len() {
        return None;
    }
    let n: usize = s.len();
    let last = n - marker.len();
    let mut i: usize = 0;
    while i <= last
        invariant
            marker@ == ready_marker(),
            last + marker@.len() == s@.len(),
            s@.len() == n,
            i <= last + 1,
            first_marker_from(s@, 0) == first_marker_from(s@, i as int),
        decreases last + 1 - i,
    {
        if matches_at(s, marker, i) {
            return Some(i);
        }
        i += 1;
    }
    None
}

/// The length of the digit run in `s` starting at `start`, together with the
/// fact that every byte of the run is a digit.
fn count_digits(s: &[u8], start: usize) -> (k: usize)
    requires
        start <= s@.len(),
    ensures
        k == digit_run(s@, start as int),
        start + k <= s@.len(),
        forall|t: int| start <= t < start + k ==> is_digit(s@[t]),
{
    let mut j: usize = start;
    while j < s.len() && 48 <= s[j] && s[j] <= 57
        invariant
            start <= j <= s@.len(),
            forall|t: int| start <= t < j ==> is_digit(s@[t]),
            digit_run(s@, start as int) == j - start + digit_run(s@, j as int),
        decreases s@.len() - j,
    {
        j += 1;
    }
    j - start
}

/// Appending one digit multiplies the value by ten and adds the digit.
proof fn lemma_dec_val_snoc(d: Seq<u8>, full: Seq<u8>)
    requires
        d.len() + 1 == full.len(),
        full.drop_last() == d,
        is_digit(full.last()),
    ensures
        dec_val(full) == dec_val(d) * 10 + (full.last() - 48),
{
}

/// The value of a prefix of a digit run never exceeds the value of the whole
/// run: the digits that follow only multiply it up and add.
proof fn lemma_dec_val_prefix_le(d: Seq<u8>, j: int)
    requires
        0 <= j <= d.len(),
        forall|t: int| 0 <= t < d.len() ==> is_digit(d[t]),
    ensures
        dec_val(d.subrange(0, j)) <= dec_val(d),
    decreases d.len() - j,
{
    if j == d.len() {
        assert(d.subrange(0, j) =~= d);
    } else {
        lemma_dec_val_prefix_le(d.drop_last(), j);
        assert(d.drop_last().subrange(0, j) =~= d.subrange(0, j));
        assert(dec_val(d) == dec_val(d.drop_last()) * 10 + (d.last() - 48));
    }
}

/// Parse the digit run `s[start .. start + k]` as a decimal port number;
/// `None` exactly when its value exceeds the largest port, 65535.
fn parse_port_digits(s: &[u8], start: usize, k: usize) -> (r: Option<u16>)
    requires
        start + k <= s@.len(),
        k >= 1,
        forall|t: int| start <= t < start + k ==> is_digit(s@[t]),
    ensures
        ({
            let v = dec_val(s@.subrange(start as int, start + k));
            match r {
                Some(p) => p == v && v <= 0xFFFF,
                None => v > 0xFFFF,
            }
        }),
{
    let ghost run = s@.subrange(start as int, start + k);
    let n: usize = s.len();
    let mut v: u32 = 0;
    let mut j: usize = 0;
    while j < k
        invariant
            j <= k,
            start + k <= s@.len(),
            s@.len() == n,
            forall|t: int| start <= t < start + k ==> is_digit(s@[t]),
            run == s@.subrange(start as int, start + k),
            v == dec_val(s@.subrange(start as int, start + j)),
            v <= 0xFFFF,
        decreases k - j,
    {
        let d = s[start + j] - 48;
        let next = v * 10 + d as u32;
        proof {
            let pre = s@.subrange(start as int, start + j);
            let ext = s@.subrange(start as int, start + j + 1);
            assert(ext.drop_last() =~= pre);
            lemma_dec_val_snoc(pre, ext);
        }
        if next > 0xFFFF {
            proof {
                let ext = s@.subrange(start as int, start + j + 1);
                assert(ext =~= run.subrange(0, j + 1));
                assert(forall|t: int| 0 <= t < run.len() ==> is_digit(run[t]));
                lemma_dec_val_prefix_le(run, j + 1);
            }
            return None;
        }
        v = next;
        j += 1;
    }
    proof {
        assert(s@.subrange(start as int, start + j) =~= run);
    }
    Some(v as u16)
}

/// Scan one stdout line for the readiness marker and extract the announced
/// port: the digits immediately after the first `http://localhost:` in the
/// line, accepted when there is at least one and their value fits a port.
/// A line without a marker, without a digit after it, or with an oversized
/// value yields `None`; no input panics.
pub fn parse_ready_port(line: &[u8]) -> (r: Option<u16>)
    ensures
        r == spec_ready_port(line@),
{
    let marker = ready_marker_bytes();
    match find_first_marker(line, &marker) {
        None => None,
        Some(i) => {
            let n: usize = line.len();
            proof {
                // The marker fits in the line, so the position after it does
                // not overflow.
                assert(i + marker@.len() <= n);
            }
            let after = i + marker.len();
            let k = count_digits(line, after);
            if k == 0 {
                None
            } else {
                parse_port_digits(line, after, k)
            }
        },
    }
}

} // verus!
