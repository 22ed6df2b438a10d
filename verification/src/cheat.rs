//! Cheats: Game Genie codes (ROM read substitution) and raw RAM pokes.
//!
//! Game Genie codes (6 or 8 letters) target ROM ($8000-$FFFF) and patch the
//! read path; 8-letter codes substitute only when the original byte matches
//! the compare value. Raw cheats `AAAA:VV` / `AAAA?CC:VV` (hex) target any
//! address.

use vstd::prelude::*;

verus! {

use crate::cartridge::Cartridge;
use vstd::string::StrSliceExecFns;
use crate::cpu::step::FlatBus;
use crate::text::{chars_of, is_whitespace, is_ws, parse_hex, parse_hex_spec, trim_bounds, trim_spec};

#[derive(Debug, Clone)]
pub struct Cheat {
    /// The code as entered (trimmed).
    pub code: String,
    pub addr: u16,
    pub value: u8,
    pub compare: Option<u8>,
    pub enabled: bool,
    pub desc: String,
}

impl Cheat {
    /// Is this a ROM patch ($8000-$FFFF read substitution)?
    pub fn is_rom_patch(&self) -> (r: bool)
        ensures r == (self.addr >= 0x8000),
    {
        self.addr >= 0x8000
    }
}

/// Game Genie letter values: A P Z L G I T Y E O X U K S V N = 0..15.
pub open spec fn gg_value(c: char) -> Option<u8> {
    let u = if 'a' <= c <= 'z' { ((c as u32) - 0x20) as u32 } else { c as u32 };
    if u == 0x41 { Some(0) } else if u == 0x50 { Some(1) } else if u == 0x5A { Some(2) }
    else if u == 0x4C { Some(3) } else if u == 0x47 { Some(4) } else if u == 0x49 { Some(5) }
    else if u == 0x54 { Some(6) } else if u == 0x59 { Some(7) } else if u == 0x45 { Some(8) }
    else if u == 0x4F { Some(9) } else if u == 0x58 { Some(10) } else if u == 0x55 { Some(11) }
    else if u == 0x4B { Some(12) } else if u == 0x53 { Some(13) } else if u == 0x56 { Some(14) }
    else if u == 0x4E { Some(15) } else { None }
}

pub fn gg_digit(c: char) -> (r: Option<u8>)
    ensures r == gg_value(c),
{
    let u: u32 = if 'a' <= c && c <= 'z' { c as u32 - 0x20 } else { c as u32 };
    if u == 0x41 { Some(0) } else if u == 0x50 { Some(1) } else if u == 0x5A { Some(2) }
    else if u == 0x4C { Some(3) } else if u == 0x47 { Some(4) } else if u == 0x49 { Some(5) }
    else if u == 0x54 { Some(6) } else if u == 0x59 { Some(7) } else if u == 0x45 { Some(8) }
    else if u == 0x4F { Some(9) } else if u == 0x58 { Some(10) } else if u == 0x55 { Some(11) }
    else if u == 0x4B { Some(12) } else if u == 0x53 { Some(13) } else if u == 0x56 { Some(14) }
    else if u == 0x4E { Some(15) } else { None }
}

/// The letter values of the non-whitespace characters, or None if any of
/// them is not a Game Genie letter.
pub open spec fn gg_letters(s: Seq<char>) -> Option<Seq<u8>>
    decreases s.len(),
{
    if s.len() == 0 {
        Some(Seq::empty())
    } else {
        match gg_letters(s.drop_last()) {
            None => None,
            Some(p) => if is_ws(s.last()) { Some(p) } else {
                match gg_value(s.last()) { Some(x) => Some(p.push(x)), None => None }
            },
        }
    }
}

pub open spec fn gg_addr(n: Seq<u8>) -> u16 {
    let g = |i: int| n[i] as u16;
    (0x8000u16 | ((g(3) & 7) << 12) | ((g(5) & 7) << 8) | ((g(4) & 8) << 8) | ((g(2) & 7) << 4)
        | ((g(1) & 8) << 4) | (g(4) & 7) | (g(3) & 8)) as u16
}

/// Decoding of a 6/8-letter code's values into (address, value, compare).
pub open spec fn gg_decode(n: Seq<u8>) -> Option<(u16, u8, Option<u8>)> {
    if n.len() == 6 {
        Some((gg_addr(n), (((n[1] & 7) << 4) | ((n[0] & 8) << 4) | (n[0] & 7) | (n[5] & 8)) as u8, None))
    } else if n.len() == 8 {
        Some((gg_addr(n),
            (((n[1] & 7) << 4) | ((n[0] & 8) << 4) | (n[0] & 7) | (n[7] & 8)) as u8,
            Some((((n[7] & 7) << 4) | ((n[6] & 8) << 4) | (n[6] & 7) | (n[5] & 8)) as u8)))
    } else {
        None
    }
}

pub open spec fn decode_game_genie_spec(code: Seq<char>) -> Option<(u16, u8, Option<u8>)> {
    match gg_letters(code) {
        Some(n) => gg_decode(n),
        None => None,
    }
}

/// Decode a 6 or 8 letter NES Game Genie code into (addr, value, compare),
/// with the standard NES Game Genie bit layout (SXIOPO decodes to $91D9 = $AD).
/// Whitespace is ignored; letters are case-insensitive.
pub fn decode_game_genie(code: &str) -> (r: Option<(u16, u8, Option<u8>)>)
    ensures r == decode_game_genie_spec(code@),
{
    let cs = chars_of(code);
    let mut n: Vec<u8> = Vec::new();
    let mut i: usize = 0;
    while i < cs.len()
        invariant
            i <= cs@.len(),
            cs@ == code@,
            gg_letters(cs@.subrange(0, i as int)) == Some(n@),
            forall|k: int| 0 <= k < n@.len() ==> n@[k] < 16,
        decreases cs@.len() - i,
    {
        let c = cs[i];
        proof {
            assert(cs@.subrange(0, i + 1).drop_last() =~= cs@.subrange(0, i as int));
            assert(cs@.subrange(0, i + 1).last() == c);
        }
        if !is_whitespace(c) {
            match gg_digit(c) {
                Some(x) => n.push(x),
                None => {
                    proof { lemma_gg_letters_none_extends(cs@, i as int + 1); }
                    assert(cs@.subrange(0, cs@.len() as int) =~= cs@);
                    return None;
                }
            }
        }
        i += 1;
    }
    assert(cs@.subrange(0, cs@.len() as int) =~= cs@);
    if n.len() != 6 && n.len() != 8 {
        return None;
    }
    let g0 = n[0] as u16;
    let g1 = n[1] as u16;
    let g2 = n[2] as u16;
    let g3 = n[3] as u16;
    let g4 = n[4] as u16;
    let g5 = n[5] as u16;
    let addr: u16 = 0x8000u16 | ((g3 & 7) << 12) | ((g5 & 7) << 8) | ((g4 & 8) << 8) | ((g2 & 7) << 4)
        | ((g1 & 8) << 4) | (g4 & 7) | (g3 & 8);
    if n.len() == 6 {
        let value = ((n[1] & 7) << 4) | ((n[0] & 8) << 4) | (n[0] & 7) | (n[5] & 8);
        Some((addr, value, None))
    } else {
        let value = ((n[1] & 7) << 4) | ((n[0] & 8) << 4) | (n[0] & 7) | (n[7] & 8);
        let compare = ((n[7] & 7) << 4) | ((n[6] & 8) << 4) | (n[6] & 7) | (n[5] & 8);
        Some((addr, value, Some(compare)))
    }
}

proof fn lemma_gg_letters_none_extends(s: Seq<char>, i: int)
    requires 0 < i <= s.len(), gg_letters(s.subrange(0, i)) is None,
    ensures gg_letters(s) is None,
    decreases s.len() - i,
{
    if i < s.len() {
        assert(s.subrange(0, i + 1).drop_last() =~= s.subrange(0, i));
        lemma_gg_letters_none_extends(s, i + 1);
    } else {
        assert(s.subrange(0, i) =~= s);
    }
}

/// Index of the first occurrence of `c` in `s`, if any.
#[verifier::opaque]
pub open spec fn first_index(s: Seq<char>, c: char) -> Option<int> {
    if exists|i: int| 0 <= i < s.len() && s[i] == c {
        Some(choose|i: int| 0 <= i < s.len() && s[i] == c && forall|k: int| 0 <= k < i ==> s[k] != c)
    } else {
        None
    }
}

pub fn find_char(s: &Vec<char>, start: usize, end: usize, c: char) -> (r: Option<usize>)
    requires start <= end <= s@.len(),
    ensures
        match r {
            Some(i) => start <= i < end && s@[i as int] == c && forall|k: int| start <= k < i ==> s@[k] != c,
            None => forall|k: int| start <= k < end ==> s@[k] != c,
        },
{
    let mut i = start;
    while i < end
        invariant
            start <= i <= end <= s@.len(),
            forall|k: int| start <= k < i ==> s@[k] != c,
        decreases end - i,
    {
        if s[i] == c {
            return Some(i);
        }
        i += 1;
    }
    None
}

proof fn lemma_no_index(s: Seq<char>, c: char)
    requires forall|k: int| 0 <= k < s.len() ==> s[k] != c,
    ensures first_index(s, c) is None,
{
    reveal(first_index);
}

proof fn lemma_first_index(s: Seq<char>, c: char, i: int)
    requires 0 <= i < s.len(), s[i] == c, forall|k: int| 0 <= k < i ==> s[k] != c,
    ensures first_index(s, c) == Some(i),
{
    reveal(first_index);
    let j = choose|j: int| 0 <= j < s.len() && s[j] == c && forall|k: int| 0 <= k < j ==> s[k] != c;
    assert(0 <= j < s.len() && s[j] == c && forall|k: int| 0 <= k < j ==> s[k] != c);
    if j < i { assert(s[j] != c); }
    if i < j { assert(s[i] != c); }
}

/// The address part of a raw cheat: `AAAA` or `AAAA?CC`.
pub open spec fn raw_addr_spec(ap: Seq<char>) -> Option<(u16, Option<u8>)> {
    match first_index(ap, '?') {
        Some(q) => match (parse_hex_spec(trim_spec(ap.subrange(0, q)), 0xFFFF),
                          parse_hex_spec(trim_spec(ap.subrange(q + 1, ap.len() as int)), 0xFF)) {
            (Some(a), Some(cv)) => Some((a as u16, Some(cv as u8))),
            _ => None,
        },
        None => match parse_hex_spec(trim_spec(ap), 0xFFFF) {
            Some(a) => Some((a as u16, None)),
            None => None,
        },
    }
}

pub open spec fn decode_raw_spec(code: Seq<char>) -> Option<(u16, u8, Option<u8>)> {
    let s = trim_spec(code);
    match first_index(s, ':') {
        None => None,
        Some(colon) => match parse_hex_spec(trim_spec(s.subrange(colon + 1, s.len() as int)), 0xFF) {
            None => None,
            Some(value) => match raw_addr_spec(s.subrange(0, colon)) {
                Some((a, c)) => Some((a, value as u8, c)),
                None => None,
            },
        },
    }
}

/// `trim` of `v[start..end]`, as absolute indices.
fn trim_range(v: &Vec<char>, start: usize, end: usize) -> (r: (usize, usize))
    requires start <= end <= v@.len(),
    ensures
        start <= r.0 <= r.1 <= end,
        v@.subrange(r.0 as int, r.1 as int) == trim_spec(v@.subrange(start as int, end as int)),
{
    let mut sub: Vec<char> = Vec::new();
    let mut i = start;
    while i < end
        invariant
            start <= i <= end <= v@.len(),
            sub@ == v@.subrange(start as int, i as int),
        decreases end - i,
    {
        sub.push(v[i]);
        i += 1;
        assert(sub@ =~= v@.subrange(start as int, i as int));
    }
    let (a, b) = trim_bounds(&sub);
    assert(sub@.subrange(a as int, b as int) =~= v@.subrange(start + a, start + b));
    (start + a, start + b)
}

fn decode_raw_addr(cs: &Vec<char>, s0: usize, colon: usize) -> (r: Option<(u16, Option<u8>)>)
    requires s0 <= colon <= cs@.len(),
    ensures r == raw_addr_spec(cs@.subrange(s0 as int, colon as int)),
{
    let ghost ap = cs@.subrange(s0 as int, colon as int);
    assert(forall|k: int| 0 <= k < ap.len() ==> ap[k] == cs@[s0 + k]);
    match find_char(cs, s0, colon, '?') {
        Some(q) => {
            proof {
                lemma_first_index(ap, '?', q - s0);
                assert(ap.subrange(0, q - s0) =~= cs@.subrange(s0 as int, q as int));
                assert(ap.subrange(q - s0 + 1, ap.len() as int) =~= cs@.subrange(q + 1, colon as int));
            }
            let (a0, a1) = trim_range(cs, s0, q);
            let (c0, c1) = trim_range(cs, q + 1, colon);
            let addr = match parse_hex(cs, a0, a1, 0xFFFF) {
                Some(a) => a as u16,
                None => return None,
            };
            let compare = match parse_hex(cs, c0, c1, 0xFF) {
                Some(c) => c as u8,
                None => return None,
            };
            Some((addr, Some(compare)))
        }
        None => {
            proof { lemma_no_index(ap, '?'); }
            let (a0, a1) = trim_range(cs, s0, colon);
            match parse_hex(cs, a0, a1, 0xFFFF) {
                Some(a) => Some((a as u16, None)),
                None => None,
            }
        }
    }
}

/// Parse a raw cheat: `AAAA:VV` (poke) or `AAAA?CC:VV` (compare-gated), hex.
pub fn decode_raw(code: &str) -> (r: Option<(u16, u8, Option<u8>)>)
    ensures r == decode_raw_spec(code@),
{
    let cs = chars_of(code);
    let (s0, s1) = trim_bounds(&cs);
    let ghost s = cs@.subrange(s0 as int, s1 as int);
    assert(forall|k: int| 0 <= k < s.len() ==> s[k] == cs@[s0 + k]);
    let colon = match find_char(&cs, s0, s1, ':') {
        Some(c) => c,
        None => {
            proof { lemma_no_index(s, ':'); }
            return None;
        }
    };
    proof {
        lemma_first_index(s, ':', colon - s0);
        assert(s.subrange(colon - s0 + 1, s.len() as int) =~= cs@.subrange(colon + 1, s1 as int));
        assert(s.subrange(0, colon - s0) =~= cs@.subrange(s0 as int, colon as int));
    }
    let (r0, r1) = trim_range(&cs, colon + 1, s1);
    let value = match parse_hex(&cs, r0, r1, 0xFF) {
        Some(v) => v as u8,
        None => return None,
    };
    match decode_raw_addr(&cs, s0, colon) {
        Some((addr, compare)) => Some((addr, value, compare)),
        None => None,
    }
}

/// The code without leading and trailing whitespace (Unicode
/// `White_Space`), as a slice of it.
fn trim_str(s: &str) -> (r: &str)
    ensures r@ == trim_spec(s@),
{
    let cs = chars_of(s);
    let (a, b) = trim_bounds(&cs);
    s.substring_char(a, b)
}

pub open spec fn parse_spec(code: Seq<char>) -> Option<(u16, u8, Option<u8>)> {
    match decode_game_genie_spec(code) {
        Some(t) => Some(t),
        None => decode_raw_spec(code),
    }
}

/// Decode any supported cheat format (Game Genie first, then raw) into an
/// enabled `Cheat`.
pub fn parse(code: &str, desc: &str) -> (r: Option<Cheat>)
    ensures
        match parse_spec(code@) {
            Some((addr, value, compare)) => r matches Some(c) && c.addr == addr && c.value == value
                && c.compare == compare && c.enabled && c.code@ == trim_spec(code@) && c.desc@ == desc@,
            None => r is None,
        },
{
    let decoded = match decode_game_genie(code) {
        Some(t) => t,
        None => match decode_raw(code) {
            Some(t) => t,
            None => return None,
        },
    };
    let (addr, value, compare) = decoded;
    Some(Cheat {
        code: trim_str(code).to_owned(),
        addr,
        value,
        compare,
        enabled: true,
        desc: desc.to_owned(),
    })
}

/// The ROM patch table that the cheat list produces: every enabled cheat at
/// or above $8000 maps its address to (value, compare); of two at one
/// address the later one wins.
pub open spec fn rom_patch_map(cs: Seq<Cheat>) -> Map<u16, (u8, Option<u8>)>
    decreases cs.len(),
{
    if cs.len() == 0 {
        Map::empty()
    } else {
        let m = rom_patch_map(cs.drop_last());
        let c = cs.last();
        if c.enabled && c.addr >= 0x8000 { m.insert(c.addr, (c.value, c.compare)) } else { m }
    }
}

/// The RAM pokes that the cheat list produces, in list order: every enabled
/// cheat below $8000 as (address, value, compare).
pub open spec fn ram_poke_list(cs: Seq<Cheat>) -> Seq<(u16, u8, Option<u8>)>
    decreases cs.len(),
{
    if cs.len() == 0 {
        Seq::empty()
    } else {
        let p = ram_poke_list(cs.drop_last());
        let c = cs.last();
        if c.enabled && c.addr < 0x8000 { p.push((c.addr, c.value, c.compare)) } else { p }
    }
}

/// Rebuild the cartridge's ROM read patches from the cheat list.
pub fn sync_patches(cart: &mut Cartridge, cheats: &Vec<Cheat>)
    ensures
        final(cart).patches@ == rom_patch_map(cheats@),
        Cartridge::same_image_but_patches(*old(cart), *final(cart)),
        final(cart).mapper == old(cart).mapper,
        final(cart).prg_ram@ == old(cart).prg_ram@,
        final(cart).chr_ram@ == old(cart).chr_ram@,
{
    cart.patches.clear();
    let mut i: usize = 0;
    while i < cheats.len()
        invariant
            i <= cheats@.len(),
            cart.patches@ == rom_patch_map(cheats@.subrange(0, i as int)),
            Cartridge::same_image_but_patches(*old(cart), *cart),
            cart.mapper == old(cart).mapper,
            cart.prg_ram@ == old(cart).prg_ram@,
            cart.chr_ram@ == old(cart).chr_ram@,
        decreases cheats@.len() - i,
    {
        let c = &cheats[i];
        assert(cheats@.subrange(0, i + 1).drop_last() =~= cheats@.subrange(0, i as int));
        if c.enabled && c.is_rom_patch() {
            cart.patches.insert(c.addr, (c.value, c.compare));
        }
        i += 1;
    }
    assert(cheats@.subrange(0, cheats@.len() as int) =~= cheats@);
}

/// The RAM pokes to apply each frame: enabled cheats below $8000, in order,
/// as (address, value, compare). A poke with a compare value writes only
/// when the byte there currently equals it.
pub fn ram_pokes(cheats: &Vec<Cheat>) -> (r: Vec<(u16, u8, Option<u8>)>)
    ensures r@ == ram_poke_list(cheats@),
{
    let mut out: Vec<(u16, u8, Option<u8>)> = Vec::new();
    let mut i: usize = 0;
    while i < cheats.len()
        invariant
            i <= cheats@.len(),
            out@ == ram_poke_list(cheats@.subrange(0, i as int)),
        decreases cheats@.len() - i,
    {
        let c = &cheats[i];
        assert(cheats@.subrange(0, i + 1).drop_last() =~= cheats@.subrange(0, i as int));
        if c.enabled && c.addr < 0x8000 {
            out.push((c.addr, c.value, c.compare));
        }
        i += 1;
    }
    assert(cheats@.subrange(0, cheats@.len() as int) =~= cheats@);
    out
}

/// Memory after applying `pokes` in order: each writes its value unless it
/// has a compare value that the byte there (as earlier pokes left it) does
/// not equal.
pub open spec fn poked(mem: Seq<u8>, pokes: Seq<(u16, u8, Option<u8>)>) -> Seq<u8>
    decreases pokes.len(),
{
    if pokes.len() == 0 {
        mem
    } else {
        let m = poked(mem, pokes.drop_last());
        let (addr, value, compare) = pokes.last();
        if compare is None || compare == Some(m[addr as int]) { m.update(addr as int, value) } else { m }
    }
}

/// Apply the cheat list's RAM pokes to memory, once (called every frame).
pub fn apply_cheats(bus: &mut FlatBus, cheats: &Vec<Cheat>)
    requires old(bus).wf(),
    ensures
        final(bus).wf(),
        final(bus).mem@ == poked(old(bus).mem@, ram_poke_list(cheats@)),
        final(bus).nmi == old(bus).nmi && final(bus).irq == old(bus).irq,
{
    let pokes = ram_pokes(cheats);
    let mut i: usize = 0;
    while i < pokes.len()
        invariant
            i <= pokes@.len(),
            bus.wf(),
            bus.mem@ == poked(old(bus).mem@, pokes@.subrange(0, i as int)),
            bus.nmi == old(bus).nmi && bus.irq == old(bus).irq,
        decreases pokes@.len() - i,
    {
        let (addr, value, compare) = pokes[i];
        assert(pokes@.subrange(0, i + 1).drop_last() =~= pokes@.subrange(0, i as int));
        let write = match compare {
            None => true,
            Some(c) => bus.read(addr) == c,
        };
        if write {
            bus.write(addr, value);
        }
        i += 1;
    }
    assert(pokes@.subrange(0, pokes@.len() as int) =~= pokes@);
}

} // verus!
