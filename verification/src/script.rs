//! Scripted controller input: `FRAME:DURATION:BUTTON[+BUTTON...]` press
//! specifications and the buttons they hold on a given frame.

use vstd::prelude::*;

verus! {

use vstd::string::*;
use vstd::utf8::encode_utf8;
use crate::text::{trim_spec, trim_bounds, chars_of};
use crate::types::{Button, button_named, button_bit};

/// Length of the run before the first character that `sep` accepts (the
/// whole length when there is none).
pub open spec fn run_len(s: Seq<char>, sep: spec_fn(char) -> bool) -> int
    decreases s.len(),
{
    if s.len() == 0 { 0 } else if sep(s[0]) { 0 } else { 1 + run_len(s.drop_first(), sep) }
}

pub proof fn lemma_run_len(s: Seq<char>, sep: spec_fn(char) -> bool)
    ensures
        0 <= run_len(s, sep) <= s.len(),
        forall|k: int| 0 <= k < run_len(s, sep) ==> !sep(#[trigger] s[k]),
        run_len(s, sep) < s.len() ==> sep(s[run_len(s, sep)]),
    decreases s.len(),
{
    if s.len() > 0 && !sep(s[0]) {
        lemma_run_len(s.drop_first(), sep);
        assert forall|k: int| 0 <= k < run_len(s, sep) implies !sep(#[trigger] s[k]) by {
            if k > 0 {
                assert(s[k] == s.drop_first()[k - 1]);
            }
        }
    }
}

proof fn lemma_run_len_is(s: Seq<char>, sep: spec_fn(char) -> bool, i: int)
    requires
        0 <= i <= s.len(),
        forall|k: int| 0 <= k < i ==> !sep(#[trigger] s[k]),
        i == s.len() || sep(s[i]),
    ensures run_len(s, sep) == i,
    decreases i,
{
    if i > 0 {
        assert forall|k: int| 0 <= k < i - 1 implies !sep(#[trigger] s.drop_first()[k]) by {
            assert(s.drop_first()[k] == s[k + 1]);
        }
        if i < s.len() {
            assert(s.drop_first()[i - 1] == s[i]);
        }
        lemma_run_len_is(s.drop_first(), sep, i - 1);
    }
}

/// `s` split at every character `sep` accepts, as `str::split` does (an
/// empty input gives one empty field).
pub open spec fn split_fields(s: Seq<char>, sep: spec_fn(char) -> bool) -> Seq<Seq<char>>
    decreases s.len(),
{
    let i = run_len(s, sep);
    proof { lemma_run_len(s, sep); }
    if i >= s.len() { seq![s] } else { seq![s.take(i)] + split_fields(s.skip(i + 1), sep) }
}

pub open spec fn is_colon() -> spec_fn(char) -> bool {
    |c: char| c == ':'
}

pub open spec fn is_button_sep() -> spec_fn(char) -> bool {
    |c: char| c == '+' || c == ','
}

/// The value of a run of decimal digits.
pub open spec fn digits_value(d: Seq<char>) -> int
    decreases d.len(),
{
    if d.len() == 0 { 0 } else { digits_value(d.drop_last()) * 10 + (d.last() as int - '0' as int) }
}

pub open spec fn all_digits(d: Seq<char>) -> bool {
    forall|i: int| 0 <= i < d.len() ==> '0' <= #[trigger] d[i] <= '9'
}

/// `u64` parsing as `str::parse` does it: an optional `+`, then one or more
/// decimal digits, with a value that fits.
pub open spec fn parse_u64_spec(s: Seq<char>) -> Option<u64> {
    let d = if s.len() > 0 && s[0] == '+' { s.drop_first() } else { s };
    if d.len() > 0 && all_digits(d) && digits_value(d) <= u64::MAX { Some(digits_value(d) as u64) } else { None }
}

proof fn lemma_digits_grow(d: Seq<char>, k: int)
    requires all_digits(d), 0 <= k <= d.len(),
    ensures digits_value(d.take(k)) <= digits_value(d), 0 <= digits_value(d.take(k)),
    decreases d.len(),
{
    if k < d.len() {
        lemma_digits_grow(d.drop_last(), k);
        assert(d.drop_last().take(k) =~= d.take(k));
        lemma_digits_nonneg(d.drop_last());
    } else {
        assert(d.take(k) =~= d);
        lemma_digits_nonneg(d);
    }
}

proof fn lemma_digits_nonneg(d: Seq<char>)
    requires all_digits(d),
    ensures digits_value(d) >= 0,
    decreases d.len(),
{
    if d.len() > 0 {
        lemma_digits_nonneg(d.drop_last());
    }
}

/// Parse `s[a..b]` as a `u64`.
fn parse_u64(s: &Vec<char>, a: usize, b: usize) -> (r: Option<u64>)
    requires a <= b <= s@.len(),
    ensures r == parse_u64_spec(s@.subrange(a as int, b as int)),
{
    let ghost f = s@.subrange(a as int, b as int);
    let mut i = a;
    if i < b && s[i] == '+' {
        i += 1;
    }
    let ghost d = if f.len() > 0 && f[0] == '+' { f.drop_first() } else { f };
    assert(d =~= s@.subrange(i as int, b as int));
    if i == b {
        return None;
    }
    let start = i;
    let mut v: u64 = 0;
    while i < b
        invariant
            a <= start <= i <= b <= s@.len(),
            f == s@.subrange(a as int, b as int),
            d == (if f.len() > 0 && f[0] == '+' { f.drop_first() } else { f }),
            d == s@.subrange(start as int, b as int),
            forall|k: int| start <= k < i ==> '0' <= #[trigger] s@[k] <= '9',
            v == digits_value(s@.subrange(start as int, i as int)),
        decreases b - i,
    {
        let c = s[i];
        if !('0' <= c && c <= '9') {
            assert(!all_digits(d)) by {
                assert(d[i - start] == c);
            }
            return None;
        }
        let digit = (c as u32 - '0' as u32) as u64;
        assert(s@.subrange(start as int, i + 1).drop_last() =~= s@.subrange(start as int, i as int));
        if v > (u64::MAX - digit) / 10 {
            proof {
                assert forall|k: int| 0 <= k < d.len() implies '0' <= #[trigger] d[k] <= '9' || !all_digits(d) by {}
                if all_digits(d) {
                    lemma_digits_grow(d, i + 1 - start);
                    assert(d.take(i + 1 - start) =~= s@.subrange(start as int, i + 1));
                    assert(v * 10 + digit > u64::MAX) by (nonlinear_arith)
                        requires v > (u64::MAX - digit) / 10, digit <= 9;
                }
            }
            return None;
        }
        assert(v * 10 + digit <= u64::MAX) by (nonlinear_arith)
            requires v <= (u64::MAX - digit) / 10, digit <= 9;
        v = v * 10 + digit;
        i += 1;
    }
    assert(all_digits(d));
    Some(v)
}

/// A press: the buttons (bit per `Button::bit`) held on frames
/// `start..end`.
#[derive(Debug, Clone, Copy, PartialEq, Eq, Structural)]
pub struct InputPress {
    pub start: u64,
    pub end: u64,
    pub buttons: u8,
}

/// Why a press specification was refused.
#[derive(Debug, Clone)]
pub enum PressError {
    /// The start frame or duration is not a `u64`.
    BadNumber,
    MissingDuration,
    MissingButtons,
    TooManyFields,
    /// A button name (as written, before trimming) that names no button.
    UnknownButton(String),
}

/// The button a (trimmed) name picks.
pub open spec fn button_of(name: Seq<char>) -> Option<Button> {
    button_named(encode_utf8(trim_spec(name)))
}

/// The mask of a list of button names, or the first unknown name.
pub open spec fn buttons_mask(names: Seq<Seq<char>>) -> Result<u8, Seq<char>>
    decreases names.len(),
{
    if names.len() == 0 { Ok(0u8) } else {
        match buttons_mask(names.drop_last()) {
            Err(e) => Err(e),
            Ok(m) => match button_of(names.last()) {
                None => Err(names.last()),
                Some(b) => Ok(m | (1u8 << button_bit(b))),
            },
        }
    }
}

/// What one specification parses to: the press, or the refusal as a code
/// (0 bad number, 1 missing duration, 2 missing buttons, 3 too many fields,
/// 4 unknown button) with the offending name for an unknown button.
pub open spec fn press_spec(s: Seq<char>) -> Result<InputPress, (u8, Seq<char>)> {
    let f = split_fields(s, is_colon());
    if parse_u64_spec(f[0]) is None { Err((0u8, Seq::empty())) }
    else if f.len() < 2 { Err((1u8, Seq::empty())) }
    else if parse_u64_spec(f[1]) is None { Err((0u8, Seq::empty())) }
    else if f.len() < 3 { Err((2u8, Seq::empty())) }
    else if f.len() > 3 { Err((3u8, Seq::empty())) }
    else {
        let start = parse_u64_spec(f[0])->Some_0;
        let dur = parse_u64_spec(f[1])->Some_0;
        match buttons_mask(split_fields(f[2], is_button_sep())) {
            Ok(m) => Ok(InputPress {
                start,
                end: if start + dur > u64::MAX { u64::MAX } else { (start + dur) as u64 },
                buttons: m,
            }),
            Err(name) => Err((4u8, name)),
        }
    }
}

/// The code and name a refusal stands for.
pub open spec fn fault(e: PressError) -> (u8, Seq<char>) {
    match e {
        PressError::BadNumber => (0u8, Seq::empty()),
        PressError::MissingDuration => (1u8, Seq::empty()),
        PressError::MissingButtons => (2u8, Seq::empty()),
        PressError::TooManyFields => (3u8, Seq::empty()),
        PressError::UnknownButton(n) => (4u8, n@),
    }
}

pub open spec fn sep_of(buttons: bool) -> spec_fn(char) -> bool {
    if buttons { is_button_sep() } else { is_colon() }
}

fn is_sep(c: char, buttons: bool) -> (r: bool)
    ensures r == sep_of(buttons)(c),
{
    if buttons { c == '+' || c == ',' } else { c == ':' }
}

/// The index ranges of the fields of `s[a..b]`.
fn split_ranges(s: &Vec<char>, a: usize, b: usize, buttons: bool) -> (r: Vec<(usize, usize)>)
    requires a <= b <= s@.len(),
    ensures
        r@.len() == split_fields(s@.subrange(a as int, b as int), sep_of(buttons)).len(),
        forall|i: int| 0 <= i < r@.len() ==> a <= (#[trigger] r@[i]).0 <= r@[i].1 <= b
            && s@.subrange(r@[i].0 as int, r@[i].1 as int) == split_fields(s@.subrange(a as int, b as int), sep_of(buttons))[i],
{
    let ghost sep = sep_of(buttons);
    let ghost whole = split_fields(s@.subrange(a as int, b as int), sep);
    let ghost mut done: Seq<Seq<char>> = Seq::empty();
    let mut r: Vec<(usize, usize)> = Vec::new();
    let mut cur = a;
    loop
        invariant
            a <= cur <= b <= s@.len(),
            sep == sep_of(buttons),
            whole == split_fields(s@.subrange(a as int, b as int), sep),
            whole == done + split_fields(s@.subrange(cur as int, b as int), sep),
            r@.len() == done.len(),
            forall|i: int| 0 <= i < r@.len() ==> a <= (#[trigger] r@[i]).0 <= r@[i].1 <= b
                && s@.subrange(r@[i].0 as int, r@[i].1 as int) == done[i],
        decreases b - cur,
    {
        let mut j = cur;
        while j < b && !is_sep(s[j], buttons)
            invariant
                cur <= j <= b <= s@.len(),
                sep == sep_of(buttons),
                forall|k: int| cur <= k < j ==> !sep(#[trigger] s@[k]),
            decreases b - j,
        {
            j += 1;
        }
        let ghost rest = s@.subrange(cur as int, b as int);
        proof {
            assert forall|k: int| 0 <= k < j - cur implies !sep(#[trigger] rest[k]) by {
                assert(rest[k] == s@[cur + k]);
            }
            if j < b {
                assert(rest[j - cur] == s@[j as int]);
            }
            lemma_run_len_is(rest, sep, j - cur);
            lemma_run_len(rest, sep);
        }
        r.push((cur, j));
        if j == b {
            proof {
                assert(rest.subrange(0, rest.len() as int) =~= rest);
                assert(split_fields(rest, sep) == seq![rest]);
                done = done.push(rest);
                assert(whole =~= done);
            }
            return r;
        }
        proof {
            assert(rest.take(j - cur) =~= s@.subrange(cur as int, j as int));
            assert(rest.skip(j - cur + 1) =~= s@.subrange(j + 1, b as int));
            assert(split_fields(rest, sep) == seq![rest.take(j - cur)] + split_fields(rest.skip(j - cur + 1), sep));
            done = done.push(s@.subrange(cur as int, j as int));
            assert(whole =~= done + split_fields(s@.subrange(j + 1, b as int), sep));
        }
        cur = j + 1;
    }
}

/// Parse one `FRAME:DURATION:BUTTONS` specification.
pub fn parse_press(spec: &str) -> (r: Result<InputPress, PressError>)
    ensures
        match r {
            Ok(p) => press_spec(spec@) == Ok::<InputPress, (u8, Seq<char>)>(p),
            Err(e) => press_spec(spec@) == Err::<InputPress, (u8, Seq<char>)>(fault(e)),
        },
{
    let s = chars_of(spec);
    let n = s.len();
    let f = split_ranges(&s, 0, n, false);
    let ghost fs = split_fields(s@, is_colon());
    assert(s@.subrange(0, n as int) =~= s@);
    proof { lemma_split_nonempty(s@, is_colon()); }
    let start = match parse_u64(&s, f[0].0, f[0].1) {
        Some(v) => v,
        None => return Err(PressError::BadNumber),
    };
    if f.len() < 2 {
        return Err(PressError::MissingDuration);
    }
    let dur = match parse_u64(&s, f[1].0, f[1].1) {
        Some(v) => v,
        None => return Err(PressError::BadNumber),
    };
    if f.len() < 3 {
        return Err(PressError::MissingButtons);
    }
    if f.len() > 3 {
        return Err(PressError::TooManyFields);
    }
    let (ba, bb) = f[2];
    let names = split_ranges(&s, ba, bb, true);
    let ghost ns = split_fields(fs[2], is_button_sep());
    let mut mask: u8 = 0;
    let mut k: usize = 0;
    while k < names.len()
        invariant
            s@ == spec@,
            fs == split_fields(spec@, is_colon()),
            fs.len() == 3,
            parse_u64_spec(fs[0]) == Some(start),
            parse_u64_spec(fs[1]) == Some(dur),
            k <= names@.len(),
            ba <= bb <= s@.len(),
            fs[2] == s@.subrange(ba as int, bb as int),
            ns == split_fields(fs[2], is_button_sep()),
            names@.len() == ns.len(),
            forall|i: int| 0 <= i < names@.len() ==> ba <= (#[trigger] names@[i]).0 <= names@[i].1 <= bb
                && s@.subrange(names@[i].0 as int, names@[i].1 as int) == ns[i],
            buttons_mask(ns.take(k as int)) == Ok::<u8, Seq<char>>(mask),
        decreases names@.len() - k,
    {
        let (na, nb) = names[k];
        let piece = copy_range(&s, na, nb);
        let (lo, hi) = trim_bounds(&piece);
        let name = spec.substring_char(na + lo, na + hi);
        proof {
            assert(name@ =~= piece@.subrange(lo as int, hi as int));
            assert(ns.take(k + 1).drop_last() =~= ns.take(k as int));
            assert(ns.take(k + 1).last() == ns[k as int]);
        }
        match Button::from_name(name) {
            Some(b) => {
                mask = mask | (1u8 << b.bit());
            },
            None => {
                let raw = String::from_str(spec.substring_char(na, nb));
                proof {
                    assert(piece@ == ns[k as int]);
                    assert(name@ == trim_spec(ns[k as int]));
                    assert(button_of(ns[k as int]) is None);
                    assert(buttons_mask(ns.take(k + 1)) == Err::<u8, Seq<char>>(ns[k as int]));
                    lemma_mask_prefix_err(ns, k as int + 1);
                    assert(raw@ == ns[k as int]);
                }
                return Err(PressError::UnknownButton(raw));
            },
        }
        k += 1;
    }
    proof {
        assert(ns.take(names@.len() as int) =~= ns);
    }
    let end = start.saturating_add(dur);
    Ok(InputPress { start, end, buttons: mask })
}

proof fn lemma_split_nonempty(s: Seq<char>, sep: spec_fn(char) -> bool)
    ensures split_fields(s, sep).len() >= 1,
    decreases s.len(),
{
    lemma_run_len(s, sep);
}

/// An unknown name in a prefix is the answer for the whole list.
proof fn lemma_mask_prefix_err(ns: Seq<Seq<char>>, k: int)
    requires 0 <= k <= ns.len(), buttons_mask(ns.take(k)) is Err,
    ensures buttons_mask(ns) == buttons_mask(ns.take(k)),
    decreases ns.len() - k,
{
    if k < ns.len() {
        assert(ns.take(k + 1).drop_last() =~= ns.take(k));
        lemma_mask_prefix_err(ns, k + 1);
    } else {
        assert(ns.take(k) =~= ns);
    }
}

fn copy_range(s: &Vec<char>, a: usize, b: usize) -> (r: Vec<char>)
    requires a <= b <= s@.len(),
    ensures r@ == s@.subrange(a as int, b as int),
{
    let mut r: Vec<char> = Vec::new();
    let mut i = a;
    while i < b
        invariant a <= i <= b <= s@.len(), r@ == s@.subrange(a as int, i as int),
        decreases b - i,
    {
        r.push(s[i]);
        assert(r@ =~= s@.subrange(a as int, i + 1));
        i += 1;
    }
    r
}

/// Parse every specification; the first refusal stops the parse and names
/// the specification it came from.
pub fn parse_presses(specs: &Vec<String>) -> (r: Result<Vec<InputPress>, (usize, PressError)>)
    ensures
        match r {
            Ok(v) => v@.len() == specs@.len()
                && forall|i: int| 0 <= i < specs@.len() ==> press_spec(specs@[i]@) == Ok::<InputPress, (u8, Seq<char>)>(#[trigger] v@[i]),
            Err((k, e)) => k < specs@.len()
                && (forall|i: int| 0 <= i < k ==> #[trigger] press_spec(specs@[i]@) is Ok)
                && press_spec(specs@[k as int]@) == Err::<InputPress, (u8, Seq<char>)>(fault(e)),
        },
{
    let mut out: Vec<InputPress> = Vec::new();
    let mut i: usize = 0;
    while i < specs.len()
        invariant
            i <= specs@.len(),
            out@.len() == i,
            forall|j: int| 0 <= j < i ==> press_spec(specs@[j]@) == Ok::<InputPress, (u8, Seq<char>)>(#[trigger] out@[j]),
        decreases specs@.len() - i,
    {
        match parse_press(specs[i].as_str()) {
            Ok(p) => out.push(p),
            Err(e) => {
                proof {
                    assert forall|j: int| 0 <= j < i implies #[trigger] press_spec(specs@[j]@) is Ok by {
                        assert(press_spec(specs@[j]@) == Ok::<InputPress, (u8, Seq<char>)>(out@[j]));
                    }
                }
                return Err((i, e));
            },
        }
        i += 1;
    }
    Ok(out)
}

/// Is a press held on `frame`?
pub open spec fn held_on(p: InputPress, frame: u64) -> bool {
    p.start <= frame < p.end
}

/// The buttons held on `frame`: `init` combined with each press active then.
pub open spec fn held_mask(frame: u64, init: u8, ps: Seq<InputPress>) -> u8
    decreases ps.len(),
{
    if ps.len() == 0 { init } else {
        let m = held_mask(frame, init, ps.drop_last());
        if held_on(ps.last(), frame) { m | ps.last().buttons } else { m }
    }
}

/// The demo autostart input: Start on frames 60-63, Right from frame 90.
pub open spec fn autostart_mask(frame: u64, autostart: bool) -> u8 {
    if !autostart { 0 } else {
        let m: u8 = if 60 <= frame < 64 { 0x08 } else { 0 };
        if frame >= 90 { m | 0x80 } else { m }
    }
}

/// The controller byte scripted for `frame`.
pub fn scripted_buttons(frame: u64, autostart: bool, presses: &Vec<InputPress>) -> (r: u8)
    ensures r == held_mask(frame, autostart_mask(frame, autostart), presses@),
{
    let mut buttons: u8 = 0;
    if autostart {
        let m: u8 = if 60 <= frame && frame < 64 { 0x08 } else { 0 };
        buttons = if frame >= 90 { m | 0x80 } else { m };
    }
    let mut i: usize = 0;
    while i < presses.len()
        invariant
            i <= presses@.len(),
            buttons == held_mask(frame, autostart_mask(frame, autostart), presses@.take(i as int)),
        decreases presses@.len() - i,
    {
        let p = presses[i];
        proof {
            assert(presses@.take(i + 1).drop_last() =~= presses@.take(i as int));
            assert(presses@.take(i + 1).last() == p);
        }
        if p.start <= frame && frame < p.end {
            buttons = buttons | p.buttons;
        }
        i += 1;
    }
    assert(presses@.take(presses@.len() as int) =~= presses@);
    buttons
}

} // verus!
