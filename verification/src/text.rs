//! Character-level text helpers: Unicode whitespace, trimming, and the
//! `from_str_radix` number syntax, with exact specifications.

use vstd::prelude::*;

verus! {

broadcast use vstd::string::axiom_spec_iter;

/// Unicode `White_Space` (what `char::is_whitespace` tests).
pub open spec fn is_ws(c: char) -> bool {
    let u = c as u32;
    (0x09 <= u <= 0x0D) || u == 0x20 || u == 0x85 || u == 0xA0 || u == 0x1680
        || (0x2000 <= u <= 0x200A) || u == 0x2028 || u == 0x2029 || u == 0x202F
        || u == 0x205F || u == 0x3000
}

pub fn is_whitespace(c: char) -> (r: bool)
    ensures r == is_ws(c),
{
    let u = c as u32;
    (0x09 <= u && u <= 0x0D) || u == 0x20 || u == 0x85 || u == 0xA0 || u == 0x1680
        || (0x2000 <= u && u <= 0x200A) || u == 0x2028 || u == 0x2029 || u == 0x202F
        || u == 0x205F || u == 0x3000
}

/// The characters of a string slice.
pub fn chars_of(s: &str) -> (r: Vec<char>)
    ensures r@ == s@,
{
    let mut v: Vec<char> = Vec::new();
    for c in it: s.chars()
        invariant
            it.seq() == s@,
            v@ == it.seq().take(it.index@ as int),
    {
        v.push(c);
        assert(v@ =~= it.seq().take(it.index@ + 1));
    }
    assert(s@.take(s@.len() as int) =~= s@);
    v
}

/// Number of leading whitespace characters.
pub open spec fn lead_ws(s: Seq<char>) -> int
    decreases s.len(),
{
    if s.len() > 0 && is_ws(s[0]) { 1 + lead_ws(s.drop_first()) } else { 0 }
}

/// Number of trailing whitespace characters.
pub open spec fn trail_ws(s: Seq<char>) -> int
    decreases s.len(),
{
    if s.len() > 0 && is_ws(s.last()) { 1 + trail_ws(s.drop_last()) } else { 0 }
}

/// `s` without leading and trailing whitespace.
#[verifier::opaque]
pub open spec fn trim_spec(s: Seq<char>) -> Seq<char> {
    let a = lead_ws(s);
    if a == s.len() { Seq::empty() } else { s.subrange(a, s.len() - trail_ws(s)) }
}

proof fn lemma_lead_ws(s: Seq<char>, i: int)
    requires 0 <= i <= s.len(), forall|k: int| 0 <= k < i ==> is_ws(#[trigger] s[k]),
    ensures lead_ws(s) >= i, lead_ws(s) <= s.len(),
        i == s.len() || !is_ws(s[i]) ==> lead_ws(s) == i,
    decreases i,
{
    lemma_lead_ws_bound(s);
    if i > 0 {
        assert forall|k: int| 0 <= k < i - 1 implies is_ws(#[trigger] s.drop_first()[k]) by {
            assert(s.drop_first()[k] == s[k + 1]);
        }
        lemma_lead_ws(s.drop_first(), i - 1);
        if i < s.len() {
            assert(s.drop_first()[i - 1] == s[i]);
        }
    }
}

proof fn lemma_lead_ws_bound(s: Seq<char>)
    ensures 0 <= lead_ws(s) <= s.len(),
    decreases s.len(),
{
    if s.len() > 0 && is_ws(s[0]) {
        lemma_lead_ws_bound(s.drop_first());
    }
}

proof fn lemma_trail_ws(s: Seq<char>, i: int)
    requires 0 <= i <= s.len(), forall|k: int| s.len() - i <= k < s.len() ==> is_ws(#[trigger] s[k]),
    ensures trail_ws(s) >= i, trail_ws(s) <= s.len(),
        i == s.len() || !is_ws(s[s.len() - 1 - i]) ==> trail_ws(s) == i,
    decreases i,
{
    lemma_trail_ws_bound(s);
    if i > 0 {
        assert forall|k: int| s.drop_last().len() - (i - 1) <= k < s.drop_last().len() implies is_ws(#[trigger] s.drop_last()[k]) by {
            assert(s.drop_last()[k] == s[k]);
        }
        lemma_trail_ws(s.drop_last(), i - 1);
        if i < s.len() {
            assert(s.drop_last()[s.drop_last().len() - 1 - (i - 1)] == s[s.len() - 1 - i]);
        }
    }
}

proof fn lemma_trail_ws_bound(s: Seq<char>)
    ensures 0 <= trail_ws(s) <= s.len(),
    decreases s.len(),
{
    if s.len() > 0 && is_ws(s.last()) {
        lemma_trail_ws_bound(s.drop_last());
    }
}

/// Index range `[a, b)` of the trimmed part of `s`.
pub fn trim_bounds(s: &Vec<char>) -> (r: (usize, usize))
    ensures
        r.0 <= r.1 <= s@.len(),
        s@.subrange(r.0 as int, r.1 as int) == trim_spec(s@),
{
    reveal(trim_spec);
    let n = s.len();
    let mut a: usize = 0;
    while a < n && is_whitespace(s[a])
        invariant
            n == s@.len(),
            a <= n,
            forall|k: int| 0 <= k < a ==> is_ws(#[trigger] s@[k]),
        decreases n - a,
    {
        a += 1;
    }
    proof { lemma_lead_ws(s@, a as int); }
    if a == n {
        assert(s@.subrange(n as int, n as int) =~= Seq::<char>::empty());
        return (n, n);
    }
    let mut t: usize = 0;
    while t < n - a && is_whitespace(s[n - 1 - t])
        invariant
            n == s@.len(),
            a < n,
            !is_ws(s@[a as int]),
            t <= n - a,
            forall|k: int| n - t <= k < n ==> is_ws(#[trigger] s@[k]),
        decreases n - a - t,
    {
        t += 1;
    }
    if t == n - a {
        assert(false);
    }
    proof { lemma_trail_ws(s@, t as int); }
    (a, n - t)
}

/// A hexadecimal digit's value.
pub open spec fn hex_val(c: char) -> Option<int> {
    if '0' <= c <= '9' { Some(c as int - '0' as int) }
    else if 'a' <= c <= 'f' { Some(c as int - 'a' as int + 10) }
    else if 'A' <= c <= 'F' { Some(c as int - 'A' as int + 10) }
    else { None }
}

pub fn hex_digit(c: char) -> (r: Option<u8>)
    ensures
        match hex_val(c) { Some(v) => r == Some(v as u8), None => r is None },
{
    if '0' <= c && c <= '9' { Some((c as u32 - '0' as u32) as u8) }
    else if 'a' <= c && c <= 'f' { Some((c as u32 - 'a' as u32 + 10) as u8) }
    else if 'A' <= c && c <= 'F' { Some((c as u32 - 'A' as u32 + 10) as u8) }
    else { None }
}

/// Value of a run of hex digits (None if a character is not a digit).
pub open spec fn hex_run(d: Seq<char>) -> Option<int>
    decreases d.len(),
{
    if d.len() == 0 {
        Some(0)
    } else {
        match (hex_run(d.drop_last()), hex_val(d.last())) {
            (Some(p), Some(x)) => Some(p * 16 + x),
            _ => None,
        }
    }
}

/// `from_str_radix(s, 16)` for an unsigned type whose maximum is `max`:
/// an optional `+`, then one or more hex digits, value at most `max`.
#[verifier::opaque]
pub open spec fn parse_hex_spec(s: Seq<char>, max: int) -> Option<int> {
    let d = if s.len() > 0 && s[0] == '+' { s.drop_first() } else { s };
    if s.len() == 0 || d.len() == 0 {
        None
    } else {
        match hex_run(d) {
            Some(v) => if v <= max { Some(v) } else { None },
            None => None,
        }
    }
}

proof fn lemma_hex_run_nonneg(d: Seq<char>)
    ensures hex_run(d) matches Some(v) ==> v >= 0,
    decreases d.len(),
{
    if d.len() > 0 {
        lemma_hex_run_nonneg(d.drop_last());
    }
}

/// If a longer run is all digits, its prefix is too and its value is no
/// smaller.
proof fn lemma_hex_run_prefix(d: Seq<char>, i: int)
    requires 0 <= i <= d.len(), hex_run(d) is Some,
    ensures hex_run(d.subrange(0, i)) is Some, hex_run(d.subrange(0, i))->Some_0 <= hex_run(d)->Some_0,
    decreases d.len() - i,
{
    lemma_hex_run_nonneg(d);
    if i < d.len() {
        let e = d.subrange(0, i + 1);
        assert(e.drop_last() =~= d.subrange(0, i));
        if i + 1 == d.len() {
            assert(e =~= d);
            lemma_hex_run_nonneg(d.subrange(0, i));
        } else {
            lemma_hex_run_prefix(d, i + 1);
            lemma_hex_run_nonneg(d.subrange(0, i));
        }
    } else {
        assert(d.subrange(0, i) =~= d);
    }
}

/// Parse `s[start..end]` as `from_str_radix(_, 16)` for a type with
/// maximum `max`.
pub fn parse_hex(s: &Vec<char>, start: usize, end: usize, max: u32) -> (r: Option<u32>)
    requires start <= end <= s@.len(),
    ensures
        match parse_hex_spec(s@.subrange(start as int, end as int), max as int) {
            Some(v) => r == Some(#[verifier::truncate] (v as u32)),
            None => r is None,
        },
        r matches Some(x) ==> x <= max,
        parse_hex_spec(s@.subrange(start as int, end as int), max as int) matches Some(v) ==> 0 <= v <= max,
{
    reveal(parse_hex_spec);
    let ghost sub = s@.subrange(start as int, end as int);
    if start == end {
        return None;
    }
    let mut i = start;
    if s[start] == '+' {
        i = start + 1;
        if i == end {
            return None;
        }
    }
    let ghost d = s@.subrange(i as int, end as int);
    assert(d == (if sub.len() > 0 && sub[0] == '+' { sub.drop_first() } else { sub }));
    let mut v: u64 = 0;
    let mut j = i;
    while j < end
        invariant
            start <= i <= j <= end <= s@.len(),
            d == s@.subrange(i as int, end as int),
            sub == s@.subrange(start as int, end as int),
            sub.len() > 0, d.len() > 0,
            d == (if sub.len() > 0 && sub[0] == '+' { sub.drop_first() } else { sub }),
            hex_run(s@.subrange(i as int, j as int)) == Some(v as int),
            v <= max,
        decreases end - j,
    {
        let x = match hex_digit(s[j]) {
            Some(x) => x,
            None => {
                proof {
                    let e = s@.subrange(i as int, j + 1);
                    assert(e.drop_last() =~= s@.subrange(i as int, j as int));
                    assert(e.last() == s@[j as int]);
                    assert(hex_run(e) is None);
                    if hex_run(d) is Some {
                        lemma_hex_run_prefix(d, j + 1 - i);
                        assert(d.subrange(0, j + 1 - i) =~= e);
                    }
                    assert(hex_run(d) is None);
                    reveal(parse_hex_spec);
                    assert(parse_hex_spec(sub, max as int) is None);
                }
                return None;
            }
        };
        let nv = v * 16 + x as u64;
        proof {
            let e = s@.subrange(i as int, j + 1);
            assert(e.drop_last() =~= s@.subrange(i as int, j as int));
            assert(e.last() == s@[j as int]);
            assert(hex_run(e) == Some(nv as int));
        }
        if nv > max as u64 {
            proof {
                let e = s@.subrange(i as int, j + 1);
                if hex_run(d) is Some {
                    lemma_hex_run_prefix(d, j + 1 - i);
                    assert(d.subrange(0, j + 1 - i) =~= e);
                }
                assert(hex_run(d) is None || hex_run(d)->Some_0 > max);
                reveal(parse_hex_spec);
                assert(parse_hex_spec(sub, max as int) is None);
            }
            return None;
        }
        v = nv;
        j += 1;
    }
    assert(d =~= s@.subrange(i as int, j as int));
    Some(v as u32)
}

} // verus!
