//! Expression evaluator for conditional breakpoints.
//!
//! A breakpoint may carry a condition like `a == 0xff && scanline >= 30`;
//! the debugger only halts when it evaluates non-zero. Grammar (precedence
//! low→high): `||` · `&&` · `== != < <= > >=` · `| ^` · `&` · `+ -` ·
//! `* / %` · unary `! - ~` · primary (`number`, `identifier`, `( … )`).
//! Numbers are decimal or `0x`-hex; comparisons yield 1/0. An unknown
//! identifier or a parse error makes the whole condition true (fail-open),
//! so a mistyped condition still stops. Arithmetic wraps at 64 bits;
//! division and remainder by zero give 0.

use vstd::prelude::*;

verus! {


use crate::bytes::{lower_seq, matches_at, copy_range, to_ascii_lower};
use vstd::string::StringSliceAdditionalSpecFns;

/// Live state a condition can reference; `value`/`addr` are -1 when not
/// applicable.
#[derive(Debug, Clone, Copy)]
pub struct Ctx {
    pub a: u8,
    pub x: u8,
    pub y: u8,
    pub p: u8,
    pub sp: u8,
    pub pc: u16,
    pub cycles: u64,
    pub scanline: u16,
    pub dot: u16,
    pub value: i64,
    pub addr: i64,
}

pub open spec fn is_ascii_ws(b: u8) -> bool {
    b == 0x20 || b == 0x09 || b == 0x0A || b == 0x0C || b == 0x0D
}

pub open spec fn is_digit(b: u8) -> bool {
    0x30 <= b <= 0x39
}

pub open spec fn is_hex_digit(b: u8) -> bool {
    (0x30 <= b <= 0x39) || (0x61 <= b <= 0x66) || (0x41 <= b <= 0x46)
}

pub open spec fn is_ident_char(b: u8) -> bool {
    (0x30 <= b <= 0x39) || (0x61 <= b <= 0x7A) || (0x41 <= b <= 0x5A) || b == 0x5F
}

/// First position at or after `i` that is not ASCII whitespace.
#[verifier::opaque]
pub open spec fn skip_ws(s: Seq<u8>, i: int) -> int
    decreases s.len() - i,
{
    if 0 <= i < s.len() && is_ascii_ws(s[i]) { skip_ws(s, i + 1) } else { i }
}

/// First position at or after `i` whose byte fails `is_hex_digit` (or the end).
#[verifier::opaque]
pub open spec fn skip_hex(s: Seq<u8>, i: int) -> int
    decreases s.len() - i,
{
    if 0 <= i < s.len() && is_hex_digit(s[i]) { skip_hex(s, i + 1) } else { i }
}

#[verifier::opaque]
pub open spec fn skip_digits(s: Seq<u8>, i: int) -> int
    decreases s.len() - i,
{
    if 0 <= i < s.len() && is_digit(s[i]) { skip_digits(s, i + 1) } else { i }
}

#[verifier::opaque]
pub open spec fn skip_ident(s: Seq<u8>, i: int) -> int
    decreases s.len() - i,
{
    if 0 <= i < s.len() && is_ident_char(s[i]) { skip_ident(s, i + 1) } else { i }
}

#[verifier::opaque]
pub open spec fn starts_with(s: Seq<u8>, i: int, tok: Seq<u8>) -> bool {
    0 <= i && i + tok.len() <= s.len() && s.subrange(i, i + tok.len()) == tok
}

/// Skip whitespace, then consume `tok` if it is next: (consumed, position).
#[verifier::opaque]
pub open spec fn eat(s: Seq<u8>, i: int, tok: Seq<u8>) -> (bool, int) {
    let j = skip_ws(s, i);
    if starts_with(s, j, tok) { (true, j + tok.len()) } else { (false, j) }
}

pub open spec fn wrap64(v: int) -> i64 {
    if v > i64::MAX { (v - 0x1_0000_0000_0000_0000) as i64 }
    else if v < i64::MIN { (v + 0x1_0000_0000_0000_0000) as i64 }
    else { v as i64 }
}

pub open spec fn abs_int(v: int) -> int {
    if v < 0 { -v } else { v }
}

/// Division truncating toward zero (Rust's `/`), wrapping at 64 bits; 0 for
/// a zero divisor.
pub open spec fn div_op(v: i64, d: i64) -> i64 {
    if d == 0 { 0 } else {
        let q = abs_int(v as int) / abs_int(d as int);
        wrap64(if (v < 0) != (d < 0) { -q } else { q })
    }
}

/// Remainder with the sign of the dividend (Rust's `%`); 0 for a zero divisor.
pub open spec fn rem_op(v: i64, d: i64) -> i64 {
    if d == 0 { 0 } else {
        let r = abs_int(v as int) % abs_int(d as int);
        (if v < 0 { -r } else { r }) as i64
    }
}

pub open spec fn b2i(b: bool) -> i64 {
    if b { 1 } else { 0 }
}

/// Value of a run of decimal digits.
pub open spec fn dec_run(d: Seq<u8>) -> int
    decreases d.len(),
{
    if d.len() == 0 { 0 } else { dec_run(d.drop_last()) * 10 + (d.last() - 0x30) }
}

pub open spec fn hex_digit_val(b: u8) -> int {
    if 0x30 <= b <= 0x39 { b - 0x30 } else if 0x61 <= b <= 0x66 { b - 0x61 + 10 } else { b - 0x41 + 10 }
}

pub open spec fn hex_run8(d: Seq<u8>) -> int
    decreases d.len(),
{
    if d.len() == 0 { 0 } else { hex_run8(d.drop_last()) * 16 + hex_digit_val(d.last()) }
}

/// A number literal parse: `Some(value)` when it fits in an i64.
pub open spec fn fits(v: int) -> Option<i64> {
    if v <= i64::MAX { Some(v as i64) } else { None }
}
#[verifier::opaque]
pub open spec fn ident_value(id: Seq<u8>, c: Ctx) -> Option<i64> {
    if id == seq![0x61u8] { Some(c.a as i64) }
    else if id == seq![0x78u8] { Some(c.x as i64) }
    else if id == seq![0x79u8] { Some(c.y as i64) }
    else if id == seq![0x70u8] { Some(c.p as i64) }
    else if id == seq![0x73u8, 0x70u8] { Some(c.sp as i64) }
    else if id == seq![0x73u8] { Some(c.sp as i64) }
    else if id == seq![0x70u8, 0x63u8] { Some(c.pc as i64) }
    else if id == seq![0x63u8, 0x79u8, 0x63u8, 0x6cu8, 0x65u8, 0x73u8] { Some(c.cycles as i64) }
    else if id == seq![0x63u8, 0x79u8, 0x63u8] { Some(c.cycles as i64) }
    else if id == seq![0x63u8, 0x79u8, 0x63u8, 0x6cu8, 0x65u8] { Some(c.cycles as i64) }
    else if id == seq![0x73u8, 0x63u8, 0x61u8, 0x6eu8, 0x6cu8, 0x69u8, 0x6eu8, 0x65u8] { Some(c.scanline as i64) }
    else if id == seq![0x73u8, 0x6cu8] { Some(c.scanline as i64) }
    else if id == seq![0x64u8, 0x6fu8, 0x74u8] { Some(c.dot as i64) }
    else if id == seq![0x63u8, 0x79u8, 0x63u8, 0x5fu8, 0x64u8, 0x6fu8, 0x74u8] { Some(c.dot as i64) }
    else if id == seq![0x70u8, 0x69u8, 0x78u8, 0x65u8, 0x6cu8] { Some(c.dot as i64) }
    else if id == seq![0x76u8, 0x61u8, 0x6cu8, 0x75u8, 0x65u8] { Some(c.value) }
    else if id == seq![0x76u8, 0x61u8, 0x6cu8] { Some(c.value) }
    else if id == seq![0x61u8, 0x64u8, 0x64u8, 0x72u8] { Some(c.addr) }
    else if id == seq![0x61u8, 0x64u8, 0x64u8, 0x72u8, 0x65u8, 0x73u8, 0x73u8] { Some(c.addr) }
    else if id == seq![0x6eu8] { Some(((c.p >> 7u8) & 1) as i64) }
    else if id == seq![0x76u8] { Some(((c.p >> 6u8) & 1) as i64) }
    else if id == seq![0x64u8] { Some(((c.p >> 3u8) & 1) as i64) }
    else if id == seq![0x69u8] { Some(((c.p >> 2u8) & 1) as i64) }
    else if id == seq![0x7au8] { Some(((c.p >> 1u8) & 1) as i64) }
    else if id == seq![0x63u8] { Some((c.p & 1) as i64) }
    else { None }
}

/// Value of an operand name (already lower-cased).
pub fn ident_lookup(id: &[u8], c: &Ctx) -> (r: Option<i64>)
    ensures r == ident_value(id@, *c),
{
    proof { reveal(ident_value); }
    let t0: [u8; 1] = [0x61];
    assert(t0@ == seq![0x61u8]);
    let t1: [u8; 1] = [0x78];
    assert(t1@ == seq![0x78u8]);
    let t2: [u8; 1] = [0x79];
    assert(t2@ == seq![0x79u8]);
    let t3: [u8; 1] = [0x70];
    assert(t3@ == seq![0x70u8]);
    let t4: [u8; 2] = [0x73, 0x70];
    assert(t4@ == seq![0x73u8, 0x70u8]);
    let t5: [u8; 1] = [0x73];
    assert(t5@ == seq![0x73u8]);
    let t6: [u8; 2] = [0x70, 0x63];
    assert(t6@ == seq![0x70u8, 0x63u8]);
    let t7: [u8; 6] = [0x63, 0x79, 0x63, 0x6c, 0x65, 0x73];
    assert(t7@ == seq![0x63u8, 0x79u8, 0x63u8, 0x6cu8, 0x65u8, 0x73u8]);
    let t8: [u8; 3] = [0x63, 0x79, 0x63];
    assert(t8@ == seq![0x63u8, 0x79u8, 0x63u8]);
    let t9: [u8; 5] = [0x63, 0x79, 0x63, 0x6c, 0x65];
    assert(t9@ == seq![0x63u8, 0x79u8, 0x63u8, 0x6cu8, 0x65u8]);
    let t10: [u8; 8] = [0x73, 0x63, 0x61, 0x6e, 0x6c, 0x69, 0x6e, 0x65];
    assert(t10@ == seq![0x73u8, 0x63u8, 0x61u8, 0x6eu8, 0x6cu8, 0x69u8, 0x6eu8, 0x65u8]);
    let t11: [u8; 2] = [0x73, 0x6c];
    assert(t11@ == seq![0x73u8, 0x6cu8]);
    let t12: [u8; 3] = [0x64, 0x6f, 0x74];
    assert(t12@ == seq![0x64u8, 0x6fu8, 0x74u8]);
    let t13: [u8; 7] = [0x63, 0x79, 0x63, 0x5f, 0x64, 0x6f, 0x74];
    assert(t13@ == seq![0x63u8, 0x79u8, 0x63u8, 0x5fu8, 0x64u8, 0x6fu8, 0x74u8]);
    let t14: [u8; 5] = [0x70, 0x69, 0x78, 0x65, 0x6c];
    assert(t14@ == seq![0x70u8, 0x69u8, 0x78u8, 0x65u8, 0x6cu8]);
    let t15: [u8; 5] = [0x76, 0x61, 0x6c, 0x75, 0x65];
    assert(t15@ == seq![0x76u8, 0x61u8, 0x6cu8, 0x75u8, 0x65u8]);
    let t16: [u8; 3] = [0x76, 0x61, 0x6c];
    assert(t16@ == seq![0x76u8, 0x61u8, 0x6cu8]);
    let t17: [u8; 4] = [0x61, 0x64, 0x64, 0x72];
    assert(t17@ == seq![0x61u8, 0x64u8, 0x64u8, 0x72u8]);
    let t18: [u8; 7] = [0x61, 0x64, 0x64, 0x72, 0x65, 0x73, 0x73];
    assert(t18@ == seq![0x61u8, 0x64u8, 0x64u8, 0x72u8, 0x65u8, 0x73u8, 0x73u8]);
    let t19: [u8; 1] = [0x6e];
    assert(t19@ == seq![0x6eu8]);
    let t20: [u8; 1] = [0x76];
    assert(t20@ == seq![0x76u8]);
    let t21: [u8; 1] = [0x64];
    assert(t21@ == seq![0x64u8]);
    let t22: [u8; 1] = [0x69];
    assert(t22@ == seq![0x69u8]);
    let t23: [u8; 1] = [0x7a];
    assert(t23@ == seq![0x7au8]);
    let t24: [u8; 1] = [0x63];
    assert(t24@ == seq![0x63u8]);
    if bytes_equal(id, &t0) { Some(c.a as i64) }
    else if bytes_equal(id, &t1) { Some(c.x as i64) }
    else if bytes_equal(id, &t2) { Some(c.y as i64) }
    else if bytes_equal(id, &t3) { Some(c.p as i64) }
    else if bytes_equal(id, &t4) { Some(c.sp as i64) }
    else if bytes_equal(id, &t5) { Some(c.sp as i64) }
    else if bytes_equal(id, &t6) { Some(c.pc as i64) }
    else if bytes_equal(id, &t7) { Some(c.cycles as i64) }
    else if bytes_equal(id, &t8) { Some(c.cycles as i64) }
    else if bytes_equal(id, &t9) { Some(c.cycles as i64) }
    else if bytes_equal(id, &t10) { Some(c.scanline as i64) }
    else if bytes_equal(id, &t11) { Some(c.scanline as i64) }
    else if bytes_equal(id, &t12) { Some(c.dot as i64) }
    else if bytes_equal(id, &t13) { Some(c.dot as i64) }
    else if bytes_equal(id, &t14) { Some(c.dot as i64) }
    else if bytes_equal(id, &t15) { Some(c.value) }
    else if bytes_equal(id, &t16) { Some(c.value) }
    else if bytes_equal(id, &t17) { Some(c.addr) }
    else if bytes_equal(id, &t18) { Some(c.addr) }
    else if bytes_equal(id, &t19) { Some(((c.p >> 7u8) & 1) as i64) }
    else if bytes_equal(id, &t20) { Some(((c.p >> 6u8) & 1) as i64) }
    else if bytes_equal(id, &t21) { Some(((c.p >> 3u8) & 1) as i64) }
    else if bytes_equal(id, &t22) { Some(((c.p >> 2u8) & 1) as i64) }
    else if bytes_equal(id, &t23) { Some(((c.p >> 1u8) & 1) as i64) }
    else if bytes_equal(id, &t24) { Some((c.p & 1) as i64) }
    else { None }
}


// ---- operator recognisers (no recursion: each looks only at the bytes) ----

/// The comparison operator at `j` (after whitespace): its code (0 `==`,
/// 1 `!=`, 2 `<=`, 3 `>=`, 4 `<`, 5 `>`, 6 none) and the position after it.
#[verifier::opaque]
pub open spec fn compare_op(s: Seq<u8>, j: int) -> (int, int) {
    let (e0, k0) = eat(s, j, seq![0x3Du8, 0x3D]);
    if e0 { (0, k0) } else {
    let (e1, k1) = eat(s, k0, seq![0x21u8, 0x3D]);
    if e1 { (1, k1) } else {
    let (e2, k2) = eat(s, k1, seq![0x3Cu8, 0x3D]);
    if e2 { (2, k2) } else {
    let (e3, k3) = eat(s, k2, seq![0x3Eu8, 0x3D]);
    if e3 { (3, k3) } else {
    let (e4, k4) = eat(s, k3, seq![0x3Cu8]);
    if e4 { (4, k4) } else {
    let (e5, k5) = eat(s, k4, seq![0x3Eu8]);
    if e5 { (5, k5) } else { (6, k5) }
    }}}}}
}

/// `|` (not `||`) → 0, `^` → 1, neither → 2; with the position after it.
#[verifier::opaque]
pub open spec fn bor_op(s: Seq<u8>, j: int) -> (int, int) {
    let j1 = skip_ws(s, j);
    if !starts_with(s, j1, seq![0x7Cu8, 0x7C]) && starts_with(s, j1, seq![0x7Cu8]) {
        (0, j1 + 1)
    } else {
        let (ok, k) = eat(s, j1, seq![0x5Eu8]);
        if ok { (1, k) } else { (2, k) }
    }
}

/// `&` (not `&&`) → true; with the position after it (or after whitespace).
#[verifier::opaque]
pub open spec fn band_op(s: Seq<u8>, j: int) -> (bool, int) {
    let j1 = skip_ws(s, j);
    if !starts_with(s, j1, seq![0x26u8, 0x26]) && starts_with(s, j1, seq![0x26u8]) {
        (true, j1 + 1)
    } else {
        (false, j1)
    }
}

/// `+` → 0, `-` → 1, neither → 2.
#[verifier::opaque]
pub open spec fn add_op(s: Seq<u8>, j: int) -> (int, int) {
    let (e0, k0) = eat(s, j, seq![0x2Bu8]);
    if e0 { (0, k0) } else {
        let (e1, k1) = eat(s, k0, seq![0x2Du8]);
        if e1 { (1, k1) } else { (2, k1) }
    }
}

/// `*` → 0, `/` → 1, `%` → 2, none → 3.
#[verifier::opaque]
pub open spec fn mul_op(s: Seq<u8>, j: int) -> (int, int) {
    let (e0, k0) = eat(s, j, seq![0x2Au8]);
    if e0 { (0, k0) } else {
        let (e1, k1) = eat(s, k0, seq![0x2Fu8]);
        if e1 { (1, k1) } else {
            let (e2, k2) = eat(s, k1, seq![0x25u8]);
            if e2 { (2, k2) } else { (3, k2) }
        }
    }
}

/// Prefix operator: `!` → 0, `~` → 1, `-` → 2, none → 3.
#[verifier::opaque]
pub open spec fn unary_op(s: Seq<u8>, i: int) -> (int, int) {
    let j = skip_ws(s, i);
    let (e0, k0) = eat(s, j, seq![0x21u8]);
    if e0 { (0, k0) } else {
        let (e1, k1) = eat(s, k0, seq![0x7Eu8]);
        if e1 { (1, k1) } else {
            let (e2, k2) = eat(s, k1, seq![0x2Du8]);
            if e2 { (2, k2) } else { (3, k2) }
        }
    }
}

/// A number (`0x`/`0X` hex or decimal, which must fit in an i64) or an
/// operand name (matched case-insensitively) starting at `start`.
#[verifier::opaque]
pub open spec fn atom(s: Seq<u8>, start: int, c: Ctx) -> Option<(i64, int)> {
    if 0 <= start < s.len() && is_digit(s[start]) {
        if starts_with(s, start, seq![0x30u8, 0x78]) || starts_with(s, start, seq![0x30u8, 0x58]) {
            let h = start + 2;
            let e = skip_hex(s, h);
            if e == h { None } else {
                match fits(hex_run8(s.subrange(h, e))) { Some(v) => Some((v, e)), None => None }
            }
        } else {
            let e = skip_digits(s, start);
            match fits(dec_run(s.subrange(start, e))) { Some(v) => Some((v, e)), None => None }
        }
    } else {
        let e = skip_ident(s, start);
        if e == start { None } else {
            match ident_value(lower_seq(s.subrange(start, e)), c) { Some(v) => Some((v, e)), None => None }
        }
    }
}

pub open spec fn compare_result(op: int, v: i64, r: i64) -> i64 {
    b2i(if op == 0 { v == r } else if op == 1 { v != r } else if op == 2 { v <= r }
        else if op == 3 { v >= r } else if op == 4 { v < r } else { v > r })
}

pub open spec fn mul_result(op: int, v: i64, r: i64) -> i64 {
    if op == 0 { v.wrapping_mul(r) } else if op == 1 { div_op(v, r) } else { rem_op(v, r) }
}

pub open spec fn unary_result(op: int, x: i64) -> i64 {
    if op == 0 { b2i(x == 0) } else if op == 1 { !x } else { 0i64.wrapping_sub(x) }
}

// ---- the grammar, one spec function per precedence level; each returns the
// value and the position after what it read ----

pub open spec fn p_or(s: Seq<u8>, i: int, c: Ctx) -> Option<(i64, int)>
    decreases s.len() - i, 15int,
{
    if i < 0 || i > s.len() { None } else {
        match p_and(s, i, c) {
            None => None,
            Some((v, j)) => if i <= j <= s.len() { p_or_rest(s, v, j, c) } else { None },
        }
    }
}

pub open spec fn p_or_rest(s: Seq<u8>, v: i64, j: int, c: Ctx) -> Option<(i64, int)>
    decreases s.len() - j, 14int,
{
    if j < 0 || j > s.len() { None } else {
        let (ok, k) = eat(s, j, seq![0x7Cu8, 0x7C]);
        if !ok { Some((v, k)) } else if k <= j || k > s.len() { None } else {
            match p_and(s, k, c) {
                None => None,
                Some((r, m)) => if j < m <= s.len() { p_or_rest(s, b2i(v != 0 || r != 0), m, c) } else { None },
            }
        }
    }
}

pub open spec fn p_and(s: Seq<u8>, i: int, c: Ctx) -> Option<(i64, int)>
    decreases s.len() - i, 13int,
{
    if i < 0 || i > s.len() { None } else {
        match p_compare(s, i, c) {
            None => None,
            Some((v, j)) => if i <= j <= s.len() { p_and_rest(s, v, j, c) } else { None },
        }
    }
}

pub open spec fn p_and_rest(s: Seq<u8>, v: i64, j: int, c: Ctx) -> Option<(i64, int)>
    decreases s.len() - j, 12int,
{
    if j < 0 || j > s.len() { None } else {
        let (ok, k) = eat(s, j, seq![0x26u8, 0x26]);
        if !ok { Some((v, k)) } else if k <= j || k > s.len() { None } else {
            match p_compare(s, k, c) {
                None => None,
                Some((r, m)) => if j < m <= s.len() { p_and_rest(s, b2i(v != 0 && r != 0), m, c) } else { None },
            }
        }
    }
}

pub open spec fn p_compare(s: Seq<u8>, i: int, c: Ctx) -> Option<(i64, int)>
    decreases s.len() - i, 12int,
{
    if i < 0 || i > s.len() { None } else {
        match p_bor(s, i, c) {
            None => None,
            Some((v, j)) => if !(i <= j <= s.len()) { None } else {
                let (op, k) = compare_op(s, skip_ws(s, j));
                if op == 6 { Some((v, k)) } else if !(j < k <= s.len()) { None } else {
                    match p_bor(s, k, c) {
                        None => None,
                        Some((r, m)) => Some((compare_result(op, v, r), m)),
                    }
                }
            },
        }
    }
}

pub open spec fn p_bor(s: Seq<u8>, i: int, c: Ctx) -> Option<(i64, int)>
    decreases s.len() - i, 10int,
{
    if i < 0 || i > s.len() { None } else {
        match p_band(s, i, c) {
            None => None,
            Some((v, j)) => if i <= j <= s.len() { p_bor_rest(s, v, j, c) } else { None },
        }
    }
}

pub open spec fn p_bor_rest(s: Seq<u8>, v: i64, j: int, c: Ctx) -> Option<(i64, int)>
    decreases s.len() - j, 9int,
{
    if j < 0 || j > s.len() { None } else {
        let (op, k) = bor_op(s, j);
        if op == 2 { Some((v, k)) } else if k <= j || k > s.len() { None } else {
            match p_band(s, k, c) {
                None => None,
                Some((r, m)) => if j < m <= s.len() {
                    p_bor_rest(s, if op == 0 { v | r } else { v ^ r }, m, c)
                } else { None },
            }
        }
    }
}

pub open spec fn p_band(s: Seq<u8>, i: int, c: Ctx) -> Option<(i64, int)>
    decreases s.len() - i, 8int,
{
    if i < 0 || i > s.len() { None } else {
        match p_add(s, i, c) {
            None => None,
            Some((v, j)) => if i <= j <= s.len() { p_band_rest(s, v, j, c) } else { None },
        }
    }
}

pub open spec fn p_band_rest(s: Seq<u8>, v: i64, j: int, c: Ctx) -> Option<(i64, int)>
    decreases s.len() - j, 7int,
{
    if j < 0 || j > s.len() { None } else {
        let (single, k) = band_op(s, j);
        if !single { Some((v, k)) } else if k <= j || k > s.len() { None } else {
            match p_add(s, k, c) {
                None => None,
                Some((r, m)) => if j < m <= s.len() { p_band_rest(s, v & r, m, c) } else { None },
            }
        }
    }
}

pub open spec fn p_add(s: Seq<u8>, i: int, c: Ctx) -> Option<(i64, int)>
    decreases s.len() - i, 6int,
{
    if i < 0 || i > s.len() { None } else {
        match p_mul(s, i, c) {
            None => None,
            Some((v, j)) => if i <= j <= s.len() { p_add_rest(s, v, j, c) } else { None },
        }
    }
}

pub open spec fn p_add_rest(s: Seq<u8>, v: i64, j: int, c: Ctx) -> Option<(i64, int)>
    decreases s.len() - j, 5int,
{
    if j < 0 || j > s.len() { None } else {
        let (op, k) = add_op(s, j);
        if op == 2 { Some((v, k)) } else if k <= j || k > s.len() { None } else {
            match p_mul(s, k, c) {
                None => None,
                Some((r, m)) => if j < m <= s.len() {
                    p_add_rest(s, if op == 0 { v.wrapping_add(r) } else { v.wrapping_sub(r) }, m, c)
                } else { None },
            }
        }
    }
}

pub open spec fn p_mul(s: Seq<u8>, i: int, c: Ctx) -> Option<(i64, int)>
    decreases s.len() - i, 4int,
{
    if i < 0 || i > s.len() { None } else {
        match p_unary(s, i, c) {
            None => None,
            Some((v, j)) => if i <= j <= s.len() { p_mul_rest(s, v, j, c) } else { None },
        }
    }
}

pub open spec fn p_mul_rest(s: Seq<u8>, v: i64, j: int, c: Ctx) -> Option<(i64, int)>
    decreases s.len() - j, 3int,
{
    if j < 0 || j > s.len() { None } else {
        let (op, k) = mul_op(s, j);
        if op == 3 { Some((v, k)) } else if k <= j || k > s.len() { None } else {
            match p_unary(s, k, c) {
                None => None,
                Some((r, m)) => if j < m <= s.len() { p_mul_rest(s, mul_result(op, v, r), m, c) } else { None },
            }
        }
    }
}

pub open spec fn p_unary(s: Seq<u8>, i: int, c: Ctx) -> Option<(i64, int)>
    decreases s.len() - i, 2int,
{
    if i < 0 || i > s.len() { None } else {
        let (op, k) = unary_op(s, i);
        if op == 3 {
            if i <= k <= s.len() { p_primary(s, k, c) } else { None }
        } else if k <= i || k > s.len() { None } else {
            match p_unary(s, k, c) {
                None => None,
                Some((x, m)) => Some((unary_result(op, x), m)),
            }
        }
    }
}

pub open spec fn p_primary(s: Seq<u8>, i: int, c: Ctx) -> Option<(i64, int)>
    decreases s.len() - i, 1int,
{
    if i < 0 || i > s.len() { None } else {
        let (ok, k) = eat(s, skip_ws(s, i), seq![0x28u8]);
        if ok {
            if k <= i || k > s.len() { None } else {
                match p_or(s, k, c) {
                    None => None,
                    Some((v, m)) => {
                        let (ok2, m2) = eat(s, m, seq![0x29u8]);
                        if ok2 { Some((v, m2)) } else { None }
                    },
                }
            }
        } else {
            atom(s, k, c)
        }
    }
}

/// The condition's truth value: non-zero result with nothing but trailing
/// whitespace left; `true` on any parse failure or trailing garbage.
pub open spec fn eval_cond_spec(s: Seq<u8>, c: Ctx) -> bool {
    match p_or(s, 0, c) {
        Some((v, j)) => if skip_ws(s, j) == s.len() { v != 0 } else { true },
        None => true,
    }
}


pub open spec fn res_ok(r: Option<(i64, usize)>, sp: Option<(i64, int)>, i: int, len: int) -> bool {
    match r {
        Some((v, j)) => sp == Some((v, j as int)) && i < j <= len,
        None => sp is None,
    }
}

fn bytes_equal(a: &[u8], b: &[u8]) -> (r: bool)
    ensures r == (a@ == b@),
{
    if a.len() != b.len() {
        return false;
    }
    let r = matches_at(a, b, 0);
    assert(a@.subrange(0, b@.len() as int) =~= a@);
    r
}

fn is_ascii_ws_x(b: u8) -> (r: bool)
    ensures r == is_ascii_ws(b),
{
    b == 0x20 || b == 0x09 || b == 0x0A || b == 0x0C || b == 0x0D
}

fn skip_ws_x(s: &[u8], i: usize) -> (r: usize)
    requires i <= s@.len(),
    ensures r == skip_ws(s@, i as int), i <= r <= s@.len(),
{
    proof { reveal(skip_ws); }
    let mut j = i;
    while j < s.len() && is_ascii_ws_x(s[j])
        invariant
            i <= j <= s@.len(),
            skip_ws(s@, i as int) == skip_ws(s@, j as int),
        decreases s@.len() - j,
    {
        proof { reveal(skip_ws); }
        j += 1;
    }
    j
}

fn starts_x(s: &[u8], i: usize, tok: &[u8]) -> (r: bool)
    requires i <= s@.len(),
    ensures r == starts_with(s@, i as int, tok@), r ==> i + tok@.len() <= s@.len(),
{
    proof { reveal(starts_with); }
    if tok.len() > s.len() - i {
        return false;
    }
    matches_at(s, tok, i)
}

fn eat_x(s: &[u8], i: usize, tok: &[u8]) -> (r: (bool, usize))
    requires i <= s@.len(), tok@.len() > 0,
    ensures
        (r.0, r.1 as int) == eat(s@, i as int, tok@),
        i <= r.1 <= s@.len(),
        r.0 ==> r.1 > i,
{
    proof { reveal(eat); reveal(starts_with); }
    let j = skip_ws_x(s, i);
    let n = tok.len();
    if n <= s.len() - j && starts_x(s, j, tok) {
        (true, j + n)
    } else {
        (false, j)
    }
}

fn x_or(s: &[u8], i: usize, c: &Ctx) -> (r: Option<(i64, usize)>)
    requires i <= s@.len(),
    ensures res_ok(r, p_or(s@, i as int, *c), i as int, s@.len() as int),
    decreases s@.len() - i, 15int,
{
    let t: [u8; 2] = [0x7C, 0x7C];
    assert(t@ == seq![0x7Cu8, 0x7C]);
    let (mut v, mut j) = match x_and(s, i, c) { Some(p) => p, None => return None };
    loop
        invariant
            i < j <= s@.len(),
            t@ == seq![0x7Cu8, 0x7C],
            p_or(s@, i as int, *c) == p_or_rest(s@, v, j as int, *c),
        decreases s@.len() - j,
    {
        let (ok, k) = eat_x(s, j, &t);
        if !ok {
            return Some((v, k));
        }
        let (r, m) = match x_and(s, k, c) { Some(p) => p, None => return None };
        v = if v != 0 || r != 0 { 1 } else { 0 };
        j = m;
    }
}

fn x_and(s: &[u8], i: usize, c: &Ctx) -> (r: Option<(i64, usize)>)
    requires i <= s@.len(),
    ensures res_ok(r, p_and(s@, i as int, *c), i as int, s@.len() as int),
    decreases s@.len() - i, 13int,
{
    let t: [u8; 2] = [0x26, 0x26];
    assert(t@ == seq![0x26u8, 0x26]);
    let (mut v, mut j) = match x_compare(s, i, c) { Some(p) => p, None => return None };
    loop
        invariant
            i < j <= s@.len(),
            t@ == seq![0x26u8, 0x26],
            p_and(s@, i as int, *c) == p_and_rest(s@, v, j as int, *c),
        decreases s@.len() - j,
    {
        let (ok, k) = eat_x(s, j, &t);
        if !ok {
            return Some((v, k));
        }
        let (r, m) = match x_compare(s, k, c) { Some(p) => p, None => return None };
        v = if v != 0 && r != 0 { 1 } else { 0 };
        j = m;
    }
}

fn div_x(v: i64, d: i64) -> (r: i64)
    ensures r == div_op(v, d),
{
    if d == 0 {
        return 0;
    }
    let av: u128 = if v < 0 { (-(v as i128)) as u128 } else { v as u128 };
    let ad: u128 = if d < 0 { (-(d as i128)) as u128 } else { d as u128 };
    assert(av == abs_int(v as int) && ad == abs_int(d as int));
    let q: u128 = av / ad;
    assert(q <= av) by (nonlinear_arith) requires ad >= 1, q == av / ad;
    if (v < 0) != (d < 0) {
        (-(q as i128)) as i64
    } else if q > 0x7FFF_FFFF_FFFF_FFFF {
        i64::MIN
    } else {
        q as i64
    }
}

fn rem_x(v: i64, d: i64) -> (r: i64)
    ensures r == rem_op(v, d),
{
    if d == 0 {
        return 0;
    }
    let av: u128 = if v < 0 { (-(v as i128)) as u128 } else { v as u128 };
    let ad: u128 = if d < 0 { (-(d as i128)) as u128 } else { d as u128 };
    assert(av == abs_int(v as int) && ad == abs_int(d as int));
    let r: u128 = av % ad;
    if v < 0 {
        -(r as i128) as i64
    } else {
        r as i64
    }
}

fn hex_val_x(b: u8) -> (r: u8)
    requires is_hex_digit(b),
    ensures r == hex_digit_val(b), r < 16,
{
    if 0x30 <= b && b <= 0x39 {
        b - 0x30
    } else if 0x61 <= b && b <= 0x66 {
        b - 0x61 + 10
    } else {
        b - 0x41 + 10
    }
}

fn is_hex_digit_x(b: u8) -> (r: bool)
    ensures r == is_hex_digit(b),
{
    (0x30 <= b && b <= 0x39) || (0x61 <= b && b <= 0x66) || (0x41 <= b && b <= 0x46)
}

fn is_ident_char_x(b: u8) -> (r: bool)
    ensures r == is_ident_char(b),
{
    (0x30 <= b && b <= 0x39) || (0x61 <= b && b <= 0x7A) || (0x41 <= b && b <= 0x5A) || b == 0x5F
}

/// Scans the hex digits from `h`; the value is exact while it fits in an
/// i64 and saturates just above `i64::MAX` once it does not.
fn scan_hex(s: &[u8], h: usize) -> (r: (u64, usize))
    requires h <= s@.len(),
    ensures
        r.1 == skip_hex(s@, h as int),
        h <= r.1 <= s@.len(),
        r.0 <= i64::MAX ==> r.0 == hex_run8(s@.subrange(h as int, r.1 as int)),
        r.0 > i64::MAX ==> hex_run8(s@.subrange(h as int, r.1 as int)) > i64::MAX,
{
    proof { reveal(skip_hex); }
    let mut e = h;
    let mut acc: u64 = 0;
    assert(s@.subrange(h as int, h as int) =~= Seq::<u8>::empty());
    while e < s.len() && is_hex_digit_x(s[e])
        invariant
            h <= e <= s@.len(),
            skip_hex(s@, h as int) == skip_hex(s@, e as int),
            acc <= 0x8000_0000_0000_0000,
            acc <= i64::MAX ==> acc == hex_run8(s@.subrange(h as int, e as int)),
            acc > i64::MAX ==> hex_run8(s@.subrange(h as int, e as int)) > i64::MAX,
        decreases s@.len() - e,
    {
        proof { reveal(skip_hex); }
        let ghost old_sub = s@.subrange(h as int, e as int);
        let dv = hex_val_x(s[e]);
        assert(s@.subrange(h as int, e + 1).drop_last() =~= old_sub);
        if acc <= 0x7FFF_FFFF_FFFF_FFFF {
            let n: u128 = (acc as u128) * 16 + dv as u128;
            if n > 0x7FFF_FFFF_FFFF_FFFF {
                acc = 0x8000_0000_0000_0000;
            } else {
                acc = n as u64;
            }
        }
        e += 1;
    }
    (acc, e)
}

/// Scans the decimal digits from `h`, saturating as `scan_hex` does.
fn scan_dec(s: &[u8], h: usize) -> (r: (u64, usize))
    requires h <= s@.len(),
    ensures
        r.1 == skip_digits(s@, h as int),
        h <= r.1 <= s@.len(),
        r.0 <= i64::MAX ==> r.0 == dec_run(s@.subrange(h as int, r.1 as int)),
        r.0 > i64::MAX ==> dec_run(s@.subrange(h as int, r.1 as int)) > i64::MAX,
        (h < s@.len() && is_digit(s@[h as int])) ==> r.1 > h,
{
    proof { reveal(skip_digits); }
    let mut e = h;
    let mut acc: u64 = 0;
    assert(s@.subrange(h as int, h as int) =~= Seq::<u8>::empty());
    while e < s.len() && 0x30 <= s[e] && s[e] <= 0x39
        invariant
            h <= e <= s@.len(),
            skip_digits(s@, h as int) == skip_digits(s@, e as int),
            acc <= 0x8000_0000_0000_0000,
            acc <= i64::MAX ==> acc == dec_run(s@.subrange(h as int, e as int)),
            acc > i64::MAX ==> dec_run(s@.subrange(h as int, e as int)) > i64::MAX,
        decreases s@.len() - e,
    {
        proof { reveal(skip_digits); }
        let ghost old_sub = s@.subrange(h as int, e as int);
        let dv = s[e] - 0x30;
        assert(s@.subrange(h as int, e + 1).drop_last() =~= old_sub);
        if acc <= 0x7FFF_FFFF_FFFF_FFFF {
            let n: u128 = (acc as u128) * 10 + dv as u128;
            if n > 0x7FFF_FFFF_FFFF_FFFF {
                acc = 0x8000_0000_0000_0000;
            } else {
                acc = n as u64;
            }
        }
        e += 1;
    }
    (acc, e)
}

fn skip_ident_x(s: &[u8], i: usize) -> (r: usize)
    requires i <= s@.len(),
    ensures r == skip_ident(s@, i as int), i <= r <= s@.len(),
{
    proof { reveal(skip_ident); }
    let mut j = i;
    while j < s.len() && is_ident_char_x(s[j])
        invariant
            i <= j <= s@.len(),
            skip_ident(s@, i as int) == skip_ident(s@, j as int),
        decreases s@.len() - j,
    {
        proof { reveal(skip_ident); }
        j += 1;
    }
    j
}


fn compare_op_x(s: &[u8], j: usize) -> (r: (u8, usize))
    requires j <= s@.len(),
    ensures
        (r.0 as int, r.1 as int) == compare_op(s@, j as int),
        j <= r.1 <= s@.len(), r.0 <= 6,
        r.0 < 6 ==> r.1 > j,
{
    proof { reveal(compare_op); }
    let t0: [u8; 2] = [0x3D, 0x3D];
    let t1: [u8; 2] = [0x21, 0x3D];
    let t2: [u8; 2] = [0x3C, 0x3D];
    let t3: [u8; 2] = [0x3E, 0x3D];
    let t4: [u8; 1] = [0x3C];
    let t5: [u8; 1] = [0x3E];
    assert(t0@ == seq![0x3Du8, 0x3D]);
    assert(t1@ == seq![0x21u8, 0x3D]);
    assert(t2@ == seq![0x3Cu8, 0x3D]);
    assert(t3@ == seq![0x3Eu8, 0x3D]);
    assert(t4@ == seq![0x3Cu8]);
    assert(t5@ == seq![0x3Eu8]);
    let (e0, k0) = eat_x(s, j, &t0);
    if e0 { return (0, k0); }
    let (e1, k1) = eat_x(s, k0, &t1);
    if e1 { return (1, k1); }
    let (e2, k2) = eat_x(s, k1, &t2);
    if e2 { return (2, k2); }
    let (e3, k3) = eat_x(s, k2, &t3);
    if e3 { return (3, k3); }
    let (e4, k4) = eat_x(s, k3, &t4);
    if e4 { return (4, k4); }
    let (e5, k5) = eat_x(s, k4, &t5);
    if e5 { (5, k5) } else { (6, k5) }
}

fn bor_op_x(s: &[u8], j: usize) -> (r: (u8, usize))
    requires j <= s@.len(),
    ensures
        (r.0 as int, r.1 as int) == bor_op(s@, j as int),
        j <= r.1 <= s@.len(), r.0 <= 2,
        r.0 < 2 ==> r.1 > j,
{
    proof { reveal(bor_op); reveal(starts_with); }
    let t2: [u8; 2] = [0x7C, 0x7C];
    let t1: [u8; 1] = [0x7C];
    let tx: [u8; 1] = [0x5E];
    assert(t2@ == seq![0x7Cu8, 0x7C]);
    assert(t1@ == seq![0x7Cu8]);
    assert(tx@ == seq![0x5Eu8]);
    let j1 = skip_ws_x(s, j);
    if j1 < s.len() && !starts_x(s, j1, &t2) && starts_x(s, j1, &t1) {
        (0, j1 + 1)
    } else {
        let (ok, k) = eat_x(s, j1, &tx);
        if ok { (1, k) } else { (2, k) }
    }
}

fn band_op_x(s: &[u8], j: usize) -> (r: (bool, usize))
    requires j <= s@.len(),
    ensures
        (r.0, r.1 as int) == band_op(s@, j as int),
        j <= r.1 <= s@.len(),
        r.0 ==> r.1 > j,
{
    proof { reveal(band_op); reveal(starts_with); }
    let t2: [u8; 2] = [0x26, 0x26];
    let t1: [u8; 1] = [0x26];
    assert(t2@ == seq![0x26u8, 0x26]);
    assert(t1@ == seq![0x26u8]);
    let j1 = skip_ws_x(s, j);
    if j1 < s.len() && !starts_x(s, j1, &t2) && starts_x(s, j1, &t1) {
        (true, j1 + 1)
    } else {
        (false, j1)
    }
}

fn add_op_x(s: &[u8], j: usize) -> (r: (u8, usize))
    requires j <= s@.len(),
    ensures
        (r.0 as int, r.1 as int) == add_op(s@, j as int),
        j <= r.1 <= s@.len(), r.0 <= 2,
        r.0 < 2 ==> r.1 > j,
{
    proof { reveal(add_op); }
    let tp: [u8; 1] = [0x2B];
    let tm: [u8; 1] = [0x2D];
    assert(tp@ == seq![0x2Bu8]);
    assert(tm@ == seq![0x2Du8]);
    let (e0, k0) = eat_x(s, j, &tp);
    if e0 { return (0, k0); }
    let (e1, k1) = eat_x(s, k0, &tm);
    if e1 { (1, k1) } else { (2, k1) }
}

fn mul_op_x(s: &[u8], j: usize) -> (r: (u8, usize))
    requires j <= s@.len(),
    ensures
        (r.0 as int, r.1 as int) == mul_op(s@, j as int),
        j <= r.1 <= s@.len(), r.0 <= 3,
        r.0 < 3 ==> r.1 > j,
{
    proof { reveal(mul_op); }
    let t0: [u8; 1] = [0x2A];
    let t1: [u8; 1] = [0x2F];
    let t2: [u8; 1] = [0x25];
    assert(t0@ == seq![0x2Au8]);
    assert(t1@ == seq![0x2Fu8]);
    assert(t2@ == seq![0x25u8]);
    let (e0, k0) = eat_x(s, j, &t0);
    if e0 { return (0, k0); }
    let (e1, k1) = eat_x(s, k0, &t1);
    if e1 { return (1, k1); }
    let (e2, k2) = eat_x(s, k1, &t2);
    if e2 { (2, k2) } else { (3, k2) }
}

fn unary_op_x(s: &[u8], i: usize) -> (r: (u8, usize))
    requires i <= s@.len(),
    ensures
        (r.0 as int, r.1 as int) == unary_op(s@, i as int),
        i <= r.1 <= s@.len(), r.0 <= 3,
        r.0 < 3 ==> r.1 > i,
{
    proof { reveal(unary_op); }
    let t0: [u8; 1] = [0x21];
    let t1: [u8; 1] = [0x7E];
    let t2: [u8; 1] = [0x2D];
    assert(t0@ == seq![0x21u8]);
    assert(t1@ == seq![0x7Eu8]);
    assert(t2@ == seq![0x2Du8]);
    let j = skip_ws_x(s, i);
    let (e0, k0) = eat_x(s, j, &t0);
    if e0 { return (0, k0); }
    let (e1, k1) = eat_x(s, k0, &t1);
    if e1 { return (1, k1); }
    let (e2, k2) = eat_x(s, k1, &t2);
    if e2 { (2, k2) } else { (3, k2) }
}

fn atom_x(s: &[u8], start: usize, c: &Ctx) -> (r: Option<(i64, usize)>)
    requires start <= s@.len(),
    ensures res_ok(r, atom(s@, start as int, *c), start as int, s@.len() as int),
{
    proof { reveal(atom); }
    let hx: [u8; 2] = [0x30, 0x78];
    let hu: [u8; 2] = [0x30, 0x58];
    assert(hx@ == seq![0x30u8, 0x78]);
    assert(hu@ == seq![0x30u8, 0x58]);
    if start < s.len() && 0x30 <= s[start] && s[start] <= 0x39 {
        if starts_x(s, start, &hx) || starts_x(s, start, &hu) {
            let h = start + 2;
            let (val, e) = scan_hex(s, h);
            assert(e == skip_hex(s@, h as int));
            if e == h || val > 0x7FFF_FFFF_FFFF_FFFF {
                None
            } else {
                Some((val as i64, e))
            }
        } else {
            let (val, e) = scan_dec(s, start);
            if val > 0x7FFF_FFFF_FFFF_FFFF {
                None
            } else {
                Some((val as i64, e))
            }
        }
    } else {
        let e = skip_ident_x(s, start);
        if e == start {
            return None;
        }
        let raw = copy_range(s, start, e - start);
        let low = to_ascii_lower(raw.as_slice());
        assert(low@ == lower_seq(s@.subrange(start as int, e as int)));
        let r = ident_lookup(low.as_slice(), c);
        assert(r == ident_value(lower_seq(s@.subrange(start as int, e as int)), *c));
        match r {
            Some(v) => Some((v, e)),
            None => None,
        }
    }
}

fn x_compare(s: &[u8], i: usize, c: &Ctx) -> (r: Option<(i64, usize)>)
    requires i <= s@.len(),
    ensures res_ok(r, p_compare(s@, i as int, *c), i as int, s@.len() as int),
    decreases s@.len() - i, 12int,
{
    let (v, j) = match x_bor(s, i, c) { Some(p) => p, None => return None };
    let j0 = skip_ws_x(s, j);
    let (op, k) = compare_op_x(s, j0);
    if op == 6 {
        return Some((v, k));
    }
    match x_bor(s, k, c) {
        None => None,
        Some((r, m)) => {
            let b = if op == 0 { v == r } else if op == 1 { v != r } else if op == 2 { v <= r }
                else if op == 3 { v >= r } else if op == 4 { v < r } else { v > r };
            Some((if b { 1 } else { 0 }, m))
        },
    }
}

fn x_bor(s: &[u8], i: usize, c: &Ctx) -> (r: Option<(i64, usize)>)
    requires i <= s@.len(),
    ensures res_ok(r, p_bor(s@, i as int, *c), i as int, s@.len() as int),
    decreases s@.len() - i, 10int,
{
    let (mut v, mut j) = match x_band(s, i, c) { Some(p) => p, None => return None };
    loop
        invariant
            i < j <= s@.len(),
            p_bor(s@, i as int, *c) == p_bor_rest(s@, v, j as int, *c),
        decreases s@.len() - j,
    {
        let (op, k) = bor_op_x(s, j);
        if op == 2 {
            return Some((v, k));
        }
        let (r, m) = match x_band(s, k, c) { Some(p) => p, None => return None };
        v = if op == 0 { v | r } else { v ^ r };
        j = m;
    }
}

fn x_band(s: &[u8], i: usize, c: &Ctx) -> (r: Option<(i64, usize)>)
    requires i <= s@.len(),
    ensures res_ok(r, p_band(s@, i as int, *c), i as int, s@.len() as int),
    decreases s@.len() - i, 8int,
{
    let (mut v, mut j) = match x_add(s, i, c) { Some(p) => p, None => return None };
    loop
        invariant
            i < j <= s@.len(),
            p_band(s@, i as int, *c) == p_band_rest(s@, v, j as int, *c),
        decreases s@.len() - j,
    {
        let (single, k) = band_op_x(s, j);
        if !single {
            return Some((v, k));
        }
        let (r, m) = match x_add(s, k, c) { Some(p) => p, None => return None };
        v = v & r;
        j = m;
    }
}

fn x_add(s: &[u8], i: usize, c: &Ctx) -> (r: Option<(i64, usize)>)
    requires i <= s@.len(),
    ensures res_ok(r, p_add(s@, i as int, *c), i as int, s@.len() as int),
    decreases s@.len() - i, 6int,
{
    let (mut v, mut j) = match x_mul(s, i, c) { Some(p) => p, None => return None };
    loop
        invariant
            i < j <= s@.len(),
            p_add(s@, i as int, *c) == p_add_rest(s@, v, j as int, *c),
        decreases s@.len() - j,
    {
        let (op, k) = add_op_x(s, j);
        if op == 2 {
            return Some((v, k));
        }
        let (r, m) = match x_mul(s, k, c) { Some(p) => p, None => return None };
        v = if op == 0 { v.wrapping_add(r) } else { v.wrapping_sub(r) };
        j = m;
    }
}

fn x_mul(s: &[u8], i: usize, c: &Ctx) -> (r: Option<(i64, usize)>)
    requires i <= s@.len(),
    ensures res_ok(r, p_mul(s@, i as int, *c), i as int, s@.len() as int),
    decreases s@.len() - i, 4int,
{
    let (mut v, mut j) = match x_unary(s, i, c) { Some(p) => p, None => return None };
    loop
        invariant
            i < j <= s@.len(),
            p_mul(s@, i as int, *c) == p_mul_rest(s@, v, j as int, *c),
        decreases s@.len() - j,
    {
        let (op, k) = mul_op_x(s, j);
        if op == 3 {
            return Some((v, k));
        }
        let (r, m) = match x_unary(s, k, c) { Some(p) => p, None => return None };
        v = if op == 0 { v.wrapping_mul(r) } else if op == 1 { div_x(v, r) } else { rem_x(v, r) };
        j = m;
    }
}

fn x_unary(s: &[u8], i: usize, c: &Ctx) -> (r: Option<(i64, usize)>)
    requires i <= s@.len(),
    ensures res_ok(r, p_unary(s@, i as int, *c), i as int, s@.len() as int),
    decreases s@.len() - i, 2int,
{
    let (op, k) = unary_op_x(s, i);
    if op == 3 {
        return x_primary(s, k, c);
    }
    match x_unary(s, k, c) {
        None => None,
        Some((x, m)) => {
            let v = if op == 0 { if x == 0 { 1 } else { 0 } } else if op == 1 { !x } else { 0i64.wrapping_sub(x) };
            Some((v, m))
        },
    }
}

fn x_primary(s: &[u8], i: usize, c: &Ctx) -> (r: Option<(i64, usize)>)
    requires i <= s@.len(),
    ensures res_ok(r, p_primary(s@, i as int, *c), i as int, s@.len() as int),
    decreases s@.len() - i, 1int,
{
    let lp: [u8; 1] = [0x28];
    let rp: [u8; 1] = [0x29];
    assert(lp@ == seq![0x28u8]);
    assert(rp@ == seq![0x29u8]);
    let j = skip_ws_x(s, i);
    let (ok, k) = eat_x(s, j, &lp);
    if ok {
        match x_or(s, k, c) {
            None => None,
            Some((v, m)) => {
                let (ok2, m2) = eat_x(s, m, &rp);
                if ok2 { Some((v, m2)) } else { None }
            },
        }
    } else {
        atom_x(s, k, c)
    }
}

/// Evaluates a breakpoint condition: true when it is non-zero, and true too
/// when it does not parse or leaves anything but whitespace unread.
pub fn eval_cond(expr: &str, ctx: &Ctx) -> (r: bool)
    ensures r == eval_cond_spec(expr.spec_bytes(), *ctx),
{
    let s = expr.as_bytes();
    match x_or(s, 0, ctx) {
        Some((v, j)) => {
            let e = skip_ws_x(s, j);
            if e == s.len() { v != 0 } else { true }
        },
        None => true,
    }
}

proof fn lemma_skip_ws_bounds(s: Seq<u8>, i: int)
    requires 0 <= i <= s.len(),
    ensures i <= skip_ws(s, i) <= s.len(),
    decreases s.len() - i,
{
    reveal(skip_ws);
    if 0 <= i < s.len() && is_ascii_ws(s[i]) {
        lemma_skip_ws_bounds(s, i + 1);
    }
}

proof fn lemma_skip_ws_fixed(s: Seq<u8>, i: int)
    requires 0 <= i <= s.len(),
    ensures skip_ws(s, i) < s.len() ==> !is_ascii_ws(s[skip_ws(s, i)]),
    decreases s.len() - i,
{
    reveal(skip_ws);
    if 0 <= i < s.len() && is_ascii_ws(s[i]) {
        lemma_skip_ws_fixed(s, i + 1);
    }
}

proof fn lemma_starts2(s: Seq<u8>, t: int, a: u8, b: u8)
    requires 0 <= t, t + 1 < s.len(),
    ensures starts_with(s, t, seq![a, b]) == (s[t] == a && s[t + 1] == b), seq![a, b].len() == 2,
{
    reveal(starts_with);
    let tok = seq![a, b];
    assert(tok.len() == 2 && tok[0] == a && tok[1] == b);
    if s[t] == a && s[t + 1] == b {
        assert(s.subrange(t, t + 2) =~= tok);
    }
    if starts_with(s, t, tok) {
        assert(s.subrange(t, t + 2)[0] == tok[0] && s.subrange(t, t + 2)[1] == tok[1]);
    }
}

proof fn lemma_starts1(s: Seq<u8>, t: int, a: u8)
    requires 0 <= t, t < s.len(),
    ensures starts_with(s, t, seq![a]) == (s[t] == a), seq![a].len() == 1,
{
    reveal(starts_with);
    let tok = seq![a];
    assert(tok.len() == 1 && tok[0] == a);
    if s[t] == a {
        assert(s.subrange(t, t + 1) =~= tok);
    }
    if starts_with(s, t, tok) {
        assert(s.subrange(t, t + 1)[0] == tok[0]);
    }
}

/// The operator token at `t` (no whitespace before it): its code and the
/// position after it.
proof fn lemma_compare_op_at(s: Seq<u8>, t: int)
    requires 0 <= t, t + 1 < s.len(), !is_ascii_ws(s[t]),
    ensures
        s[t] == 0x3D && s[t + 1] == 0x3D ==> compare_op(s, t) == (0int, t + 2),
        s[t] == 0x21 && s[t + 1] == 0x3D ==> compare_op(s, t) == (1int, t + 2),
        s[t] == 0x3C && s[t + 1] == 0x3D ==> compare_op(s, t) == (2int, t + 2),
        s[t] == 0x3E && s[t + 1] == 0x3D ==> compare_op(s, t) == (3int, t + 2),
        s[t] == 0x3C && s[t + 1] != 0x3D ==> compare_op(s, t) == (4int, t + 1),
        s[t] == 0x3E && s[t + 1] != 0x3D ==> compare_op(s, t) == (5int, t + 1),
{
    reveal(eat);
    reveal(skip_ws);
    reveal(compare_op);
    assert(skip_ws(s, t) == t);
    let two = s.subrange(t, t + 2);
    let one = s.subrange(t, t + 1);
    assert(two =~= seq![s[t], s[t + 1]]);
    assert(one =~= seq![s[t]]);
    lemma_starts2(s, t, 0x3D, 0x3D);
    lemma_starts2(s, t, 0x21, 0x3D);
    lemma_starts2(s, t, 0x3C, 0x3D);
    lemma_starts2(s, t, 0x3E, 0x3D);
    lemma_starts1(s, t, 0x3C);
    lemma_starts1(s, t, 0x3E);
    assert(eat(s, t, seq![0x3Du8, 0x3D]) == (if s[t] == 0x3D && s[t + 1] == 0x3D { (true, t + 2) } else { (false, t) }));
    assert(eat(s, t, seq![0x21u8, 0x3D]) == (if s[t] == 0x21 && s[t + 1] == 0x3D { (true, t + 2) } else { (false, t) }));
    assert(eat(s, t, seq![0x3Cu8, 0x3D]) == (if s[t] == 0x3C && s[t + 1] == 0x3D { (true, t + 2) } else { (false, t) }));
    assert(eat(s, t, seq![0x3Eu8, 0x3D]) == (if s[t] == 0x3E && s[t + 1] == 0x3D { (true, t + 2) } else { (false, t) }));
}

/// Law: a comparison `L op R` (L read from `i`, the operator after optional
/// whitespace, R read right after the operator) evaluates to 1 when the
/// relation holds between the values of L and R and to 0 otherwise, for
/// each of `==`, `!=`, `<=`, `>=`, `<` and `>`; in particular `L <= R` is 1
/// when the two are equal.
pub proof fn lemma_comparison_value(s: Seq<u8>, i: int, c: Ctx, t: int)
    requires
        0 <= i <= s.len(),
        p_bor(s, i, c) is Some,
        i <= p_bor(s, i, c)->Some_0.1 <= s.len(),
        t == skip_ws(s, p_bor(s, i, c)->Some_0.1),
        t + 1 < s.len(),
        s[t] == 0x3D || s[t] == 0x21 || s[t] == 0x3C || s[t] == 0x3E,
        s[t] == 0x3D || s[t] == 0x21 ==> s[t + 1] == 0x3D,
        p_bor(s, t + (if s[t + 1] == 0x3D { 2int } else { 1int }), c) is Some,
    ensures
        ({
            let v = p_bor(s, i, c)->Some_0.0;
            let (r, m) = p_bor(s, t + (if s[t + 1] == 0x3D { 2int } else { 1int }), c)->Some_0;
            let holds = if s[t] == 0x3D { v == r } else if s[t] == 0x21 { v != r }
                else if s[t] == 0x3C { if s[t + 1] == 0x3D { v <= r } else { v < r } }
                else { if s[t + 1] == 0x3D { v >= r } else { v > r } };
            p_compare(s, i, c) == Some((if holds { 1i64 } else { 0i64 }, m))
        }),
{
    let j = p_bor(s, i, c)->Some_0.1;
    lemma_skip_ws_bounds(s, j);
    assert(!is_ascii_ws(s[t])) by {
        lemma_skip_ws_fixed(s, j);
    }
    lemma_compare_op_at(s, t);
}

/// Law: `L && R` (L read from `i`, `&&` after optional whitespace, R read
/// right after it, and no further `&&`) is 1 exactly when both L and R are
/// nonzero, and 0 otherwise.
pub proof fn lemma_and_value(s: Seq<u8>, i: int, c: Ctx, t: int)
    requires
        0 <= i <= s.len(),
        p_compare(s, i, c) is Some,
        i <= p_compare(s, i, c)->Some_0.1 <= s.len(),
        t == skip_ws(s, p_compare(s, i, c)->Some_0.1),
        t + 1 < s.len(), s[t] == 0x26, s[t + 1] == 0x26,
        p_compare(s, t + 2, c) is Some,
        p_compare(s, i, c)->Some_0.1 < p_compare(s, t + 2, c)->Some_0.1 <= s.len(),
        !starts_with(s, skip_ws(s, p_compare(s, t + 2, c)->Some_0.1), seq![0x26u8, 0x26]),
    ensures
        ({
            let v = p_compare(s, i, c)->Some_0.0;
            let (r, m) = p_compare(s, t + 2, c)->Some_0;
            p_and(s, i, c) == Some((if v != 0 && r != 0 { 1i64 } else { 0i64 }, skip_ws(s, m)))
        }),
{
    let j = p_compare(s, i, c)->Some_0.1;
    lemma_skip_ws_bounds(s, j);
    lemma_starts2(s, t, 0x26, 0x26);
    reveal(eat);
    reveal_with_fuel(p_and_rest, 2);
}

/// Law: `L || R` (L read from `i`, `||` after optional whitespace, R read
/// right after it, and no further `||`) is 1 exactly when L or R is
/// nonzero, and 0 otherwise.
pub proof fn lemma_or_value(s: Seq<u8>, i: int, c: Ctx, t: int)
    requires
        0 <= i <= s.len(),
        p_and(s, i, c) is Some,
        i <= p_and(s, i, c)->Some_0.1 <= s.len(),
        t == skip_ws(s, p_and(s, i, c)->Some_0.1),
        t + 1 < s.len(), s[t] == 0x7C, s[t + 1] == 0x7C,
        p_and(s, t + 2, c) is Some,
        p_and(s, i, c)->Some_0.1 < p_and(s, t + 2, c)->Some_0.1 <= s.len(),
        !starts_with(s, skip_ws(s, p_and(s, t + 2, c)->Some_0.1), seq![0x7Cu8, 0x7C]),
    ensures
        ({
            let v = p_and(s, i, c)->Some_0.0;
            let (r, m) = p_and(s, t + 2, c)->Some_0;
            p_or(s, i, c) == Some((if v != 0 || r != 0 { 1i64 } else { 0i64 }, skip_ws(s, m)))
        }),
{
    let j = p_and(s, i, c)->Some_0.1;
    lemma_skip_ws_bounds(s, j);
    lemma_starts2(s, t, 0x7C, 0x7C);
    reveal(eat);
    reveal_with_fuel(p_or_rest, 2);
}

} // verus!
