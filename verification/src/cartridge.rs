//! Cartridge loading (iNES / NES 2.0) and PRG/CHR/PRG-RAM resolution.

use vstd::prelude::*;
use std::collections::HashMap;
use vstd::string::StringSliceAdditionalSpecFns;
use vstd::string::StringExecFns;

verus! {

use crate::bytes::{contains, copy_range, lower_seq, occurs, to_ascii_lower, zeros};
use crate::crc::{crc32, crc32_of};
use crate::mapper::kind::Mapper;
use crate::mapper::{ChrAccess, MAX_CHR_8K, MAX_PRG_16K};
use crate::types::{Mirroring, Region};

broadcast use vstd::std_specs::hash::group_hash_axioms;

/// Sanity cap (1 GiB) on ROM sizes declared by NES 2.0 headers.
pub const MAX_DECLARED_ROM_BYTES: usize = 0x4000_0000;

/// A CRC-keyed override of the header's mapper number.
#[derive(Debug, Clone, Copy, PartialEq, Eq, Structural)]
pub struct MapperCorrection {
    pub crc32: u32,
    pub mapper: u16,
}

/// CRC of "Dai-2-Ji - Super Robot Taisen (Chinese)", dumped with an iNES
/// mapper 74 header although the board is TW MMC3+VRAM Rev. C (194).
pub const CORRECTION_CRC32: u32 = 0xD0F6_CBCF;
pub const CORRECTION_MAPPER: u16 = 194;

/// The correction table.
pub fn mapper_corrections() -> (r: Vec<MapperCorrection>)
    ensures r@ == seq![MapperCorrection { crc32: CORRECTION_CRC32, mapper: CORRECTION_MAPPER }],
{
    let mut v = Vec::new();
    v.push(MapperCorrection { crc32: CORRECTION_CRC32, mapper: CORRECTION_MAPPER });
    assert(v@ =~= seq![MapperCorrection { crc32: CORRECTION_CRC32, mapper: CORRECTION_MAPPER }]);
    v
}

pub open spec fn corrected_mapper_spec(header_mapper: u16, crc: u32) -> u16 {
    if crc == CORRECTION_CRC32 { CORRECTION_MAPPER } else { header_mapper }
}

/// The mapper number after applying the correction table to an image with
/// checksum `crc`.
pub fn corrected_mapper_for_crc(header_mapper: u16, crc: u32) -> (r: u16)
    ensures r == corrected_mapper_spec(header_mapper, crc),
{
    let table = mapper_corrections();
    let mut i: usize = 0;
    while i < table.len()
        invariant
            i <= table@.len(),
            table@ == seq![MapperCorrection { crc32: CORRECTION_CRC32, mapper: CORRECTION_MAPPER }],
            forall|k: int| 0 <= k < i ==> table@[k].crc32 != crc,
        decreases table.len() - i,
    {
        if table[i].crc32 == crc {
            return table[i].mapper;
        }
        i += 1;
    }
    assert(table@[0].crc32 == CORRECTION_CRC32);
    header_mapper
}

/// The mapper number after the CRC-keyed correction of the whole image.
pub fn corrected_mapper_number(header_mapper: u16, data: &[u8]) -> (r: u16)
    ensures r == corrected_mapper_spec(header_mapper, crc32_of(data@)),
{
    corrected_mapper_for_crc(header_mapper, crc32(data))
}

#[derive(Debug, Clone, Copy, PartialEq, Eq, Structural)]
pub enum CartridgeError {
    /// ROM too small / invalid header.
    InvalidHeader,
    /// Bad iNES magic.
    BadMagic,
    /// ROM truncated: `expected` bytes needed, `actual` present.
    Truncated { expected: usize, actual: usize },
    /// Unsupported mapper number.
    UnsupportedMapper(u16),
}

/// The decimal digits of `n`.
pub open spec fn decimal(n: nat) -> Seq<char>
    decreases n,
{
    if n < 10 { seq![digit_char(n)] } else { decimal(n / 10) + seq![digit_char(n % 10)] }
}

pub open spec fn digit_char(d: nat) -> char {
    ('0' as u32 + d) as char
}

fn digit_str(d: u8) -> (r: &'static str)
    requires d < 10,
    ensures r@ == seq![digit_char(d as nat)],
{
    proof {
        reveal_strlit("0");
        reveal_strlit("1");
        reveal_strlit("2");
        reveal_strlit("3");
        reveal_strlit("4");
        reveal_strlit("5");
        reveal_strlit("6");
        reveal_strlit("7");
        reveal_strlit("8");
        reveal_strlit("9");
    }
    if d == 0 { "0" } else if d == 1 { "1" } else if d == 2 { "2" } else if d == 3 { "3" }
    else if d == 4 { "4" } else if d == 5 { "5" } else if d == 6 { "6" } else if d == 7 { "7" }
    else if d == 8 { "8" } else { "9" }
}

/// Append the decimal form of `n`.
fn push_decimal(out: &mut String, n: u64)
    ensures final(out)@ == old(out)@ + decimal(n as nat),
    decreases n,
{
    if n >= 10 {
        push_decimal(out, n / 10);
    }
    out.append(digit_str((n % 10) as u8));
    assert(final(out)@ =~= old(out)@ + decimal(n as nat));
}

impl CartridgeError {
    pub open spec fn message_spec(self) -> Seq<char> {
        match self {
            CartridgeError::InvalidHeader => "ROM too small / invalid header"@,
            CartridgeError::BadMagic => "bad iNES magic"@,
            CartridgeError::Truncated { expected, actual } =>
                "ROM truncated: expected "@ + decimal(expected as nat) + " bytes, got "@ + decimal(actual as nat),
            CartridgeError::UnsupportedMapper(n) => "unsupported mapper "@ + decimal(n as nat),
        }
    }

    /// The error's message.
    pub fn message(&self) -> (r: String)
        ensures r@ == self.message_spec(),
    {
        match self {
            CartridgeError::InvalidHeader => String::from_str("ROM too small / invalid header"),
            CartridgeError::BadMagic => String::from_str("bad iNES magic"),
            CartridgeError::Truncated { expected, actual } => {
                let mut m = String::from_str("ROM truncated: expected ");
                push_decimal(&mut m, *expected as u64);
                m.append(" bytes, got ");
                push_decimal(&mut m, *actual as u64);
                m
            },
            CartridgeError::UnsupportedMapper(n) => {
                let mut m = String::from_str("unsupported mapper ");
                push_decimal(&mut m, *n as u64);
                m
            },
        }
    }
}

// ------------------------------------------------------------ header model

pub open spec fn magic_ok(d: Seq<u8>) -> bool {
    d.len() >= 4 && d[0] == 0x4E && d[1] == 0x45 && d[2] == 0x53 && d[3] == 0x1A
}

pub open spec fn is_nes20_spec(d: Seq<u8>) -> bool {
    d[7] & 0x0C == 0x08
}

pub open spec fn region_hint_from_header_spec(d: Seq<u8>) -> Option<Region> {
    if d.len() < 16 || !magic_ok(d) {
        None
    } else if is_nes20_spec(d) {
        let t = d[12] % 4;
        if t == 1 { Some(Region::Pal) } else if t == 3 { Some(Region::Dendy) } else { Some(Region::Ntsc) }
    } else if d[9] % 2 == 1 {
        Some(Region::Pal)
    } else {
        None
    }
}

pub open spec fn min_int(a: int, b: int) -> int {
    if a <= b { a } else { b }
}

/// NES 2.0 exponent-multiplier size: `(low2 * 2 + 1) << (byte >> 2)`,
/// exponent capped at 30 and the result at 1 GiB.
pub open spec fn nes20_exponent_size_spec(value: u8) -> int {
    let exponent = min_int(value as int / 4, 30);
    min_int(((value % 4) * 2 + 1) * pow2_int(exponent), MAX_DECLARED_ROM_BYTES as int)
}

pub open spec fn pow2_int(e: int) -> int
    decreases e,
{
    if e <= 0 { 1 } else { 2 * pow2_int(e - 1) }
}

pub open spec fn nes20_rom_size_spec(count: u8, upper_nibble: u8, unit: int) -> int {
    if upper_nibble == 0x0F {
        nes20_exponent_size_spec(count)
    } else {
        min_int((upper_nibble * 256 + count) * unit, MAX_DECLARED_ROM_BYTES as int)
    }
}

pub open spec fn prg_rom_size_spec(count: u8, upper: u8, nes20: bool) -> int {
    if nes20 {
        nes20_rom_size_spec(count, upper % 16, 0x4000)
    } else {
        (if count == 0 { 256 } else { count as int }) * 0x4000
    }
}

pub open spec fn chr_rom_size_spec(count: u8, upper: u8, nes20: bool) -> int {
    if nes20 {
        nes20_rom_size_spec(count, upper / 16, 0x2000)
    } else {
        count * 0x2000
    }
}

/// NES 2.0 RAM size nibble: 0 = none, else `64 << n`.
pub open spec fn nes20_ram_size_spec(nibble: u8) -> int {
    if nibble % 16 == 0 { 0 } else { 64 * pow2_int((nibble % 16) as int) }
}

pub open spec fn default_ines_chr_ram_size_spec(mapper_number: u16) -> int {
    if mapper_number == 13 { 16384int } else { 8192int }
}

proof fn lemma_pow2_bounds(e: int)
    requires 0 <= e,
    ensures pow2_int(e) >= 1, e <= 30 ==> pow2_int(e) <= 0x4000_0000,
    decreases e,
{
    if e > 0 {
        lemma_pow2_bounds(e - 1);
    }
    if e <= 30 {
        lemma_pow2_mono(e, 30);
        lemma_pow2_30();
    }
}

proof fn lemma_pow2_30()
    ensures pow2_int(30) == 0x4000_0000,
{
    reveal_with_fuel(pow2_int, 31);
}

proof fn lemma_pow2_shift(e: u64)
    requires e <= 30,
    ensures (1u64 << e) == pow2_int(e as int),
    decreases e,
{
    if e == 0 {
        assert(1u64 << 0u64 == 1) by (bit_vector);
    } else {
        lemma_pow2_shift((e - 1) as u64);
        let p = (e - 1) as u64;
        assert(p < 30 ==> (1u64 << (p + 1)) == 2 * (1u64 << p)) by (bit_vector);
    }
}

/// NES 2.0 exponent-multiplier ROM size.
pub fn nes20_exponent_size(value: u8) -> (r: usize)
    ensures r == nes20_exponent_size_spec(value), r <= MAX_DECLARED_ROM_BYTES,
{
    let e = value / 4;
    let exponent: u64 = if e > 30 { 30 } else { e as u64 };
    let multiplier: u64 = ((value % 4) as u64) * 2 + 1;
    proof {
        lemma_pow2_shift(exponent);
        lemma_pow2_bounds(exponent as int);
    }
    let p: u64 = 1u64 << exponent;
    assert(multiplier * p <= 7 * 0x4000_0000) by (nonlinear_arith)
        requires multiplier <= 7, p <= 0x4000_0000;
    let size: u64 = multiplier * p;
    if size > MAX_DECLARED_ROM_BYTES as u64 { MAX_DECLARED_ROM_BYTES } else { size as usize }
}

/// ROM size from a count byte and a unit, NES 2.0 style.
pub fn nes20_rom_size(count: u8, upper_nibble: u8, unit: usize) -> (r: usize)
    requires unit == 0x4000 || unit == 0x2000, upper_nibble < 16,
    ensures r == nes20_rom_size_spec(count, upper_nibble, unit as int), r <= MAX_DECLARED_ROM_BYTES,
{
    if upper_nibble == 0x0F {
        nes20_exponent_size(count)
    } else {
        let banks: usize = (upper_nibble as usize) * 256 + count as usize;
        assert(banks * unit <= 0xFFF * 0x4000) by (nonlinear_arith)
            requires banks <= 0xFFF, unit <= 0x4000;
        let size = banks * unit;
        if size > MAX_DECLARED_ROM_BYTES { MAX_DECLARED_ROM_BYTES } else { size }
    }
}

/// PRG-ROM byte count from header bytes 4 and 9.
pub fn prg_rom_size(count: u8, upper: u8, is_nes20: bool) -> (r: usize)
    ensures r == prg_rom_size_spec(count, upper, is_nes20), r <= MAX_DECLARED_ROM_BYTES,
{
    if is_nes20 {
        nes20_rom_size(count, upper % 16, 0x4000)
    } else {
        let banks: usize = if count == 0 { 256 } else { count as usize };
        banks * 0x4000
    }
}

/// CHR-ROM byte count from header bytes 5 and 9.
pub fn chr_rom_size(count: u8, upper: u8, is_nes20: bool) -> (r: usize)
    ensures r == chr_rom_size_spec(count, upper, is_nes20), r <= MAX_DECLARED_ROM_BYTES,
{
    if is_nes20 {
        nes20_rom_size(count, upper / 16, 0x2000)
    } else {
        count as usize * 0x2000
    }
}

/// NES 2.0 RAM size from a nibble.
pub fn nes20_ram_size(nibble: u8) -> (r: usize)
    ensures r == nes20_ram_size_spec(nibble), r <= 0x20_0000,
{
    let n = nibble % 16;
    if n == 0 {
        0
    } else {
        proof {
            lemma_pow2_shift(n as u64);
            lemma_pow2_bounds(n as int);
            lemma_pow2_mono(n as int, 15);
            lemma_pow2_15();
        }
        let p: u64 = 1u64 << (n as u64);
        (64 * p) as usize
    }
}

proof fn lemma_pow2_mono(a: int, b: int)
    requires 0 <= a <= b,
    ensures pow2_int(a) <= pow2_int(b),
    decreases b,
{
    if a < b {
        lemma_pow2_mono(a, b - 1);
        lemma_pow2_pos(b - 1);
    }
}

proof fn lemma_pow2_pos(e: int)
    ensures pow2_int(e) >= 1,
    decreases e,
{
    if e > 0 {
        lemma_pow2_pos(e - 1);
    }
}

proof fn lemma_pow2_15()
    ensures pow2_int(15) == 0x8000,
{
    reveal_with_fuel(pow2_int, 16);
}

pub fn default_ines_chr_ram_size(mapper_number: u16) -> (r: usize)
    ensures r == default_ines_chr_ram_size_spec(mapper_number),
{
    if mapper_number == 13 { 16 * 1024 } else { 8 * 1024 }
}

// Derived header fields of a (long enough, magic-checked) image.

pub open spec fn prg_bytes_of(d: Seq<u8>) -> int {
    prg_rom_size_spec(d[4], d[9], is_nes20_spec(d))
}

pub open spec fn chr_bytes_of(d: Seq<u8>) -> int {
    chr_rom_size_spec(d[5], d[9], is_nes20_spec(d))
}

pub open spec fn ceil_div(a: int, b: int) -> int {
    (a + b - 1) / b
}

pub open spec fn header_mapper_of(d: Seq<u8>) -> u16 {
    ((d[7] / 16) * 16 + d[6] / 16 + if is_nes20_spec(d) { (d[8] % 16) * 256 } else { 0 }) as u16
}

pub open spec fn mapper_number_of(d: Seq<u8>) -> u16 {
    corrected_mapper_spec(header_mapper_of(d), crc32_of(d))
}

pub open spec fn submapper_of(d: Seq<u8>) -> u8 {
    if is_nes20_spec(d) { d[8] / 16 } else { 0 }
}

pub open spec fn prg_ram_size_of(d: Seq<u8>) -> int {
    if is_nes20_spec(d) { nes20_ram_size_spec(d[10] % 16) }
    else if d[6] & 0x02 != 0 { 0 }
    else { (if d[8] == 0 { 1 } else { d[8] as int }) * 0x2000 }
}

pub open spec fn prg_nvram_size_of(d: Seq<u8>) -> int {
    if is_nes20_spec(d) { nes20_ram_size_spec(d[10] / 16) }
    else if d[6] & 0x02 != 0 { (if d[8] == 0 { 1 } else { d[8] as int }) * 0x2000 }
    else { 0 }
}

pub open spec fn chr_ram_size_of(d: Seq<u8>) -> int {
    if is_nes20_spec(d) { nes20_ram_size_spec(d[11] % 16) }
    else if chr_bytes_of(d) == 0 { default_ines_chr_ram_size_spec(mapper_number_of(d)) }
    else { 0x2000 }
}

pub open spec fn chr_nvram_size_of(d: Seq<u8>) -> int {
    if is_nes20_spec(d) { nes20_ram_size_spec(d[11] / 16) } else { 0 }
}

pub open spec fn header_mirroring_of(d: Seq<u8>) -> Mirroring {
    if d[6] & 0x08 != 0 { Mirroring::FourScreen }
    else if d[6] & 0x01 != 0 { Mirroring::Vertical }
    else { Mirroring::Horizontal }
}

pub open spec fn rom_offset_of(d: Seq<u8>) -> int {
    16 + if d[6] & 0x04 != 0 { 512int } else { 0 }
}

pub open spec fn expected_len_of(d: Seq<u8>) -> int {
    rom_offset_of(d) + prg_bytes_of(d) + chr_bytes_of(d)
}

/// The header names a mapper that has a board here.
pub open spec fn mapper_supported(d: Seq<u8>) -> bool {
    Mapper::supported(mapper_number_of(d))
}

/// `m` is the board freshly built from this header.
pub open spec fn mapper_built(d: Seq<u8>, m: Mapper) -> bool {
    Mapper::builds(
        mapper_number_of(d),
        ceil_div(prg_bytes_of(d), 0x4000) as usize,
        ceil_div(chr_bytes_of(d), 0x2000) as usize,
        header_mirroring_of(d),
        submapper_of(d),
        m,
    )
}

/// Byte at `index` of a memory that wraps around its length (0 when empty).
pub open spec fn wrapped(bytes: Seq<u8>, index: int) -> u8 {
    if bytes.len() == 0 { 0 } else { bytes[index % (bytes.len() as int)] }
}

pub fn wrap_index(index: usize, len: usize) -> (r: usize)
    requires len > 0,
    ensures r == index % len, r < len,
{
    index % len
}

pub fn read_wrapped(bytes: &[u8], index: usize) -> (r: u8)
    ensures r == wrapped(bytes@, index as int),
{
    if bytes.len() == 0 {
        return 0;
    }
    bytes[wrap_index(index, bytes.len())]
}

pub open spec fn patched(patches: Map<u16, (u8, Option<u8>)>, addr: u16, v: u8) -> u8 {
    if patches.contains_key(addr) && (patches[addr].1 is None || patches[addr].1 == Some(v)) {
        patches[addr].0
    } else {
        v
    }
}

/// A loaded cartridge.
#[derive(Debug, Clone)]
pub struct Cartridge {
    pub prg_rom: Vec<u8>,
    pub chr_rom: Vec<u8>,
    pub chr_ram: Vec<u8>,
    pub prg_ram: Vec<u8>,
    pub prg_ram_size: usize,
    pub prg_nvram_size: usize,
    pub chr_ram_size: usize,
    pub chr_nvram_size: usize,
    pub uses_chr_ram: bool,
    pub has_battery: bool,
    pub mapper_number: u16,
    pub submapper: u8,
    pub mapper: Mapper,
    /// Cached `mapper.watches_ppu_bus()`.
    pub mapper_watches_ppu_bus: bool,
    /// Cached `mapper.clocks_cpu()`.
    pub mapper_clocks_cpu: bool,
    /// Cached `mapper.has_expansion_audio()`.
    pub mapper_has_expansion_audio: bool,
    /// Cached `mapper.has_chr_read()`.
    pub mapper_has_chr_read: bool,
    /// Header-declared (fixed) mirroring; live mirroring comes from the mapper.
    pub header_mirroring: Mirroring,
    pub is_nes20: bool,
    /// Header-declared timing hint.
    pub region_hint: Option<Region>,
    /// Game Genie ROM read patches: addr → (value, optional compare).
    pub patches: HashMap<u16, (u8, Option<u8>)>,
}

impl Cartridge {
    pub open spec fn wf(&self) -> bool {
        self.mapper.wf()
    }

    /// The cached capability flags agree with the mapper.
    pub open spec fn caps_fresh(&self) -> bool {
        &&& self.mapper_watches_ppu_bus == self.mapper.watches_ppu_bus_spec()
        &&& self.mapper_clocks_cpu == self.mapper.clocks_cpu_spec()
        &&& !self.mapper_has_expansion_audio
        &&& self.mapper_has_chr_read == self.mapper.has_chr_read_spec()
    }

    /// What loading the image `d` produces, field by field.
    pub open spec fn loaded_from(&self, d: Seq<u8>) -> bool {
        let nes20 = is_nes20_spec(d);
        let off = rom_offset_of(d);
        let prg = prg_bytes_of(d);
        let chr = chr_bytes_of(d);
        &&& self.prg_rom@ == d.subrange(off, off + prg)
        &&& (chr > 0 ==> self.chr_rom@ == d.subrange(off + prg, off + prg + chr) && self.chr_ram@.len() == 0 && !self.uses_chr_ram)
        &&& (chr == 0 ==> self.chr_rom@.len() == 0 && self.uses_chr_ram && self.chr_ram@ == Seq::new(
                (if nes20 { chr_ram_size_of(d) + chr_nvram_size_of(d) } else { chr_ram_size_of(d) }) as nat, |i: int| 0u8))
        &&& self.prg_ram@ == Seq::new(
                (if nes20 { prg_ram_size_of(d) + prg_nvram_size_of(d) } else { prg_ram_size_of(d) }) as nat, |i: int| 0u8)
        &&& self.prg_ram_size == prg_ram_size_of(d)
        &&& self.prg_nvram_size == prg_nvram_size_of(d)
        &&& self.chr_ram_size == chr_ram_size_of(d)
        &&& self.chr_nvram_size == chr_nvram_size_of(d)
        &&& self.has_battery == (d[6] & 0x02 != 0)
        &&& self.mapper_number == mapper_number_of(d)
        &&& self.submapper == submapper_of(d)
        &&& mapper_built(d, self.mapper)
        &&& self.header_mirroring == header_mirroring_of(d)
        &&& self.is_nes20 == nes20
        &&& self.region_hint == region_hint_from_header_spec(d)
        &&& self.patches@ == Map::<u16, (u8, Option<u8>)>::empty()
        &&& self.caps_fresh()
    }

    /// Region hint from the header: NES 2.0 byte 12 (NTSC, PAL, multi→NTSC,
    /// Dendy) or the iNES 1.0 PAL bit in byte 9.
    pub fn region_hint_from_header(data: &[u8]) -> (r: Option<Region>)
        ensures r == region_hint_from_header_spec(data@),
    {
        if data.len() < 16 || !has_magic(data) {
            return None;
        }
        let flags7 = data[7];
        let is_nes20 = (flags7 & 0x0C) == 0x08;
        if is_nes20 {
            let t = data[12] % 4;
            if t == 1 { Some(Region::Pal) } else if t == 3 { Some(Region::Dendy) } else { Some(Region::Ntsc) }
        } else if data[9] % 2 == 1 {
            Some(Region::Pal)
        } else {
            None
        }
    }

    /// Region hint from tags in a file name (case-insensitive): "dendy",
    /// European/PAL tags, or USA/Japan/NTSC tags.
    pub fn region_hint_from_name(name: &str) -> (r: Option<Region>)
        ensures r == region_hint_from_name_spec(name.spec_bytes()),
    {
        let lower = to_ascii_lower(name.as_bytes());
        let l = lower.as_slice();
        if contains(l, "dendy".as_bytes()) {
            return Some(Region::Dendy);
        }
        if contains(l, "(e)".as_bytes()) || contains(l, "[e]".as_bytes()) || contains(l, "(europe)".as_bytes())
            || contains(l, "[europe]".as_bytes()) || contains(l, "(australia)".as_bytes())
            || contains(l, "(germany)".as_bytes()) || contains(l, "(spain)".as_bytes())
            || contains(l, "(france)".as_bytes()) || contains(l, "(italy)".as_bytes())
            || contains(l, "(f)".as_bytes()) || contains(l, "(g)".as_bytes()) || contains(l, "(i)".as_bytes())
            || contains(l, "(pal)".as_bytes()) || contains(l, "[pal]".as_bytes()) {
            return Some(Region::Pal);
        }
        if contains(l, "(usa)".as_bytes()) || contains(l, "[usa]".as_bytes()) || contains(l, "(japan)".as_bytes())
            || contains(l, "[japan]".as_bytes()) || contains(l, "(ntsc)".as_bytes()) || contains(l, "[ntsc]".as_bytes()) {
            return Some(Region::Ntsc);
        }
        None
    }

    /// Header hint first, then the file-name hint.
    pub fn region_hint(path_or_name: &str, data: &[u8]) -> (r: Option<Region>)
        ensures
            r == (match region_hint_from_header_spec(data@) {
                Some(h) => Some(h),
                None => region_hint_from_name_spec(path_or_name.spec_bytes()),
            }),
    {
        match Self::region_hint_from_header(data) {
            Some(h) => Some(h),
            None => Self::region_hint_from_name(path_or_name),
        }
    }
}


impl Cartridge {
    /// Parse an iNES or NES 2.0 ROM image.
    pub fn from_bytes(data: &[u8]) -> (r: Result<Cartridge, CartridgeError>)
        ensures
            data@.len() < 16 ==> r == Err::<Cartridge, CartridgeError>(CartridgeError::InvalidHeader),
            data@.len() >= 16 && !magic_ok(data@) ==> r == Err::<Cartridge, CartridgeError>(CartridgeError::BadMagic),
            data@.len() >= 16 && magic_ok(data@) && data@.len() < expected_len_of(data@) ==>
                r == Err::<Cartridge, CartridgeError>(CartridgeError::Truncated { expected: expected_len_of(data@) as usize, actual: data@.len() as usize }),
            data@.len() >= 16 && magic_ok(data@) && data@.len() >= expected_len_of(data@) && !mapper_supported(data@) ==>
                r == Err::<Cartridge, CartridgeError>(CartridgeError::UnsupportedMapper(mapper_number_of(data@))),
            data@.len() >= 16 && magic_ok(data@) && data@.len() >= expected_len_of(data@) && mapper_supported(data@) ==>
                r is Ok && r->Ok_0.loaded_from(data@) && r->Ok_0.wf(),
    {
        if data.len() < 16 {
            return Err(CartridgeError::InvalidHeader);
        }
        if !has_magic(data) {
            return Err(CartridgeError::BadMagic);
        }
        let flags6 = data[6];
        let flags7 = data[7];
        let is_nes20 = (flags7 & 0x0C) == 0x08;
        let region_hint = Self::region_hint_from_header(data);

        let prg_bytes = prg_rom_size(data[4], data[9], is_nes20);
        let chr_bytes = chr_rom_size(data[5], data[9], is_nes20);
        let prg_16k = (prg_bytes + 0x3FFF) / 0x4000;
        let chr_8k = (chr_bytes + 0x1FFF) / 0x2000;
        let has_battery = flags6 & 0x02 != 0;
        let prg_ram_banks: usize = if data[8] == 0 { 1 } else { data[8] as usize };
        let prg_ram_size: usize;
        let prg_nvram_size: usize;
        let mut chr_ram_size: usize;
        let chr_nvram_size: usize;
        if is_nes20 {
            prg_ram_size = nes20_ram_size(data[10] % 16);
            prg_nvram_size = nes20_ram_size(data[10] / 16);
            chr_ram_size = nes20_ram_size(data[11] % 16);
            chr_nvram_size = nes20_ram_size(data[11] / 16);
        } else {
            let prg_ram = prg_ram_banks * 0x2000;
            if has_battery {
                prg_ram_size = 0;
                prg_nvram_size = prg_ram;
            } else {
                prg_ram_size = prg_ram;
                prg_nvram_size = 0;
            }
            chr_ram_size = 0x2000;
            chr_nvram_size = 0;
        }

        let mapper_lo = (flags6 / 16) as u16;
        let mapper_hi = ((flags7 / 16) as u16) * 16;
        let mut header_mapper = mapper_hi + mapper_lo;
        if is_nes20 {
            header_mapper = header_mapper + ((data[8] % 16) as u16) * 256;
        }
        let submapper = if is_nes20 { data[8] / 16 } else { 0 };
        let mapper_number = corrected_mapper_number(header_mapper, data);
        if !is_nes20 && chr_bytes == 0 {
            chr_ram_size = default_ines_chr_ram_size(mapper_number);
        }

        let has_trainer = flags6 & 0x04 != 0;
        let four_screen = flags6 & 0x08 != 0;
        let header_mirroring = if four_screen {
            Mirroring::FourScreen
        } else if flags6 & 0x01 != 0 {
            Mirroring::Vertical
        } else {
            Mirroring::Horizontal
        };

        let offset: usize = 16 + if has_trainer { 512 } else { 0 };
        let expected = offset + prg_bytes + chr_bytes;
        if data.len() < expected {
            return Err(CartridgeError::Truncated { expected, actual: data.len() });
        }
        assert(header_mapper == header_mapper_of(data@));

        let prg_rom = copy_range(data, offset, prg_bytes);
        let chr_rom: Vec<u8>;
        let chr_ram: Vec<u8>;
        let uses_chr_ram: bool;
        if chr_8k > 0 {
            chr_rom = copy_range(data, offset + prg_bytes, chr_bytes);
            chr_ram = Vec::new();
            uses_chr_ram = false;
        } else {
            let ram_size = if is_nes20 { chr_ram_size + chr_nvram_size } else { chr_ram_size };
            chr_rom = Vec::new();
            chr_ram = zeros(ram_size);
            uses_chr_ram = true;
        }
        let prg_ram_size_total = if is_nes20 { prg_ram_size + prg_nvram_size } else { prg_ram_size };
        let prg_ram = zeros(prg_ram_size_total);

        let mapper = match Mapper::new(mapper_number, prg_16k, chr_8k, header_mirroring, submapper) {
            Ok(m) => m,
            Err(n) => return Err(CartridgeError::UnsupportedMapper(n)),
        };
        let mapper_watches_ppu_bus = mapper.watches_ppu_bus();
        let mapper_clocks_cpu = mapper.clocks_cpu();
        let mapper_has_expansion_audio = mapper.has_expansion_audio();
        let mapper_has_chr_read = mapper.has_chr_read();

        Ok(Cartridge {
            prg_rom,
            chr_rom,
            chr_ram,
            prg_ram,
            prg_ram_size,
            prg_nvram_size,
            chr_ram_size,
            chr_nvram_size,
            uses_chr_ram,
            has_battery,
            mapper_number,
            submapper,
            mapper,
            mapper_watches_ppu_bus,
            mapper_clocks_cpu,
            mapper_has_expansion_audio,
            mapper_has_chr_read,
            header_mirroring,
            is_nes20,
            region_hint,
            patches: HashMap::new(),
        })
    }

    /// Re-derive the cached mapper capabilities (after the mapper was
    /// replaced wholesale, e.g. by a save-state load).
    pub fn refresh_mapper_caps(&mut self)
        requires old(self).wf(),
        ensures
            final(self).caps_fresh(),
            final(self).wf(),
            final(self).mapper == old(self).mapper,
            final(self).prg_rom@ == old(self).prg_rom@,
            final(self).chr_rom@ == old(self).chr_rom@,
            final(self).chr_ram@ == old(self).chr_ram@,
            final(self).prg_ram@ == old(self).prg_ram@,
            final(self).patches@ == old(self).patches@,
            final(self).uses_chr_ram == old(self).uses_chr_ram,
    {
        self.mapper_watches_ppu_bus = self.mapper.watches_ppu_bus();
        self.mapper_clocks_cpu = self.mapper.clocks_cpu();
        self.mapper_has_expansion_audio = self.mapper.has_expansion_audio();
        self.mapper_has_chr_read = self.mapper.has_chr_read();
    }

    /// Reset the board, then refresh the cached capabilities.
    pub fn reset_mapper(&mut self, soft: bool)
        requires old(self).wf(),
        ensures
            Mapper::was_reset(old(self).mapper, final(self).mapper, soft),
            final(self).caps_fresh(),
            final(self).wf(),
            final(self).prg_rom@ == old(self).prg_rom@,
            final(self).chr_rom@ == old(self).chr_rom@,
            final(self).chr_ram@ == old(self).chr_ram@,
            final(self).prg_ram@ == old(self).prg_ram@,
            final(self).patches@ == old(self).patches@,
    {
        self.mapper.reset(soft);
        self.refresh_mapper_caps();
    }

    // ---- CPU bus ($4018-$FFFF) ----

    /// What a CPU read at `addr` returns (with `open_bus` for a floating
    /// bus); reads of the supported boards have no side
    /// effects, so read and peek agree.
    pub open spec fn cpu_value(&self, addr: u16, open_bus: u8) -> u8 {
        if 0x4018 <= addr <= 0x5FFF {
            match self.mapper.peek_expansion_spec(addr) {
                Some(b) => b,
                None => open_bus,
            }
        } else if 0x6000 <= addr <= 0x7FFF {
            let ram = wrapped(self.prg_ram@, addr - 0x6000);
            match self.mapper.peek_low_register_with_open_bus_spec(addr, ram, open_bus) {
                Some(b) => b,
                None => match self.mapper.low_prg_index_spec(addr) {
                    Some(i) => wrapped(self.prg_rom@, i as int),
                    None => ram,
                },
            }
        } else if addr >= 0x8000 {
            let rom = wrapped(self.prg_rom@, self.mapper.prg_index_spec(addr) as int);
            let v = match self.mapper.peek_register_with_open_bus_spec(addr, rom, open_bus) {
                Some(b) => b,
                None => rom,
            };
            patched(self.patches@, addr, v)
        } else {
            0
        }
    }

    /// A CPU read changes nothing but the board, and the board only where it
    /// latches on a read of `$8000-$FFFF` (given the ROM byte there).
    pub open spec fn cpu_read_done(o: Self, n: Self, addr: u16, open_bus: u8) -> bool {
        &&& n == (Cartridge { mapper: n.mapper, ..o })
        &&& if addr >= 0x8000 {
                Mapper::register_read(o.mapper, n.mapper, addr, wrapped(o.prg_rom@, o.mapper.prg_index_spec(addr) as int), open_bus)
            } else {
                n.mapper == o.mapper
            }
    }

    pub fn cpu_read(&mut self, addr: u16) -> (r: u8)
        requires old(self).wf(),
        ensures r == old(self).cpu_value(addr, 0), Cartridge::cpu_read_done(*old(self), *final(self), addr, 0), final(self).wf(),
    {
        self.cpu_read_with_open_bus(addr, 0)
    }

    pub fn cpu_read_with_open_bus(&mut self, addr: u16, open_bus: u8) -> (r: u8)
        requires old(self).wf(),
        ensures r == old(self).cpu_value(addr, open_bus), Cartridge::cpu_read_done(*old(self), *final(self), addr, open_bus),
            final(self).wf(),
    {
        if 0x4018 <= addr && addr <= 0x5FFF {
            match self.mapper.read_expansion(addr) {
                Some(b) => b,
                None => open_bus,
            }
        } else if 0x6000 <= addr && addr <= 0x7FFF {
            let prg_ram_value = read_wrapped(&self.prg_ram, (addr - 0x6000) as usize);
            if let Some(b) = self.mapper.peek_low_register_with_open_bus(addr, prg_ram_value, open_bus) {
                return b;
            }
            if let Some(i) = self.mapper.low_prg_index(addr) {
                return read_wrapped(&self.prg_rom, i);
            }
            prg_ram_value
        } else if addr >= 0x8000 {
            let i = self.mapper.prg_index(addr);
            let rom = read_wrapped(&self.prg_rom, i);
            let v = match self.mapper.read_register_with_open_bus(addr, rom, open_bus) {
                Some(b) => b,
                None => rom,
            };
            self.patch_for(addr, v)
        } else {
            self.cpu_peek_with_open_bus(addr, open_bus)
        }
    }

    /// Apply a Game Genie patch to the byte read at `addr`, if one matches.
    pub fn patch_for(&self, addr: u16, v: u8) -> (r: u8)
        ensures r == patched(self.patches@, addr, v),
    {
        if self.patches.is_empty() {
            assert(!self.patches@.contains_key(addr));
            return v;
        }
        match self.patches.get(&addr) {
            Some(entry) => {
                let (patch, compare) = *entry;
                match compare {
                    None => patch,
                    Some(c) => if c == v { patch } else { v },
                }
            }
            None => v,
        }
    }

    pub fn cpu_peek(&self, addr: u16) -> (r: u8)
        requires self.wf(),
        ensures r == self.cpu_value(addr, 0),
    {
        self.cpu_peek_with_open_bus(addr, 0)
    }

    pub fn cpu_peek_with_open_bus(&self, addr: u16, open_bus: u8) -> (r: u8)
        requires self.wf(),
        ensures r == self.cpu_value(addr, open_bus),
    {
        if 0x4018 <= addr && addr <= 0x5FFF {
            match self.mapper.peek_expansion(addr) {
                Some(b) => b,
                None => open_bus,
            }
        } else if 0x6000 <= addr && addr <= 0x7FFF {
            let prg_ram_value = read_wrapped(&self.prg_ram, (addr - 0x6000) as usize);
            if let Some(b) = self.mapper.peek_low_register_with_open_bus(addr, prg_ram_value, open_bus) {
                return b;
            }
            if let Some(i) = self.mapper.low_prg_index(addr) {
                return read_wrapped(&self.prg_rom, i);
            }
            prg_ram_value
        } else if addr >= 0x8000 {
            let i = self.mapper.prg_index(addr);
            let rom = read_wrapped(&self.prg_rom, i);
            let v = match self.mapper.peek_register_with_open_bus(addr, rom, open_bus) {
                Some(b) => b,
                None => rom,
            };
            self.patch_for(addr, v)
        } else {
            0
        }
    }

    /// The value a $8000-$FFFF write actually drives: boards with bus
    /// conflicts AND it with the ROM byte at that address.
    pub open spec fn conflicted(&self, addr: u16, value: u8) -> u8 {
        if self.mapper.has_bus_conflicts_spec() {
            value & wrapped(self.prg_rom@, self.mapper.prg_index_spec(addr) as int)
        } else {
            value
        }
    }

    /// What a CPU write of `value` at `addr` does (`r`: handled): expansion
    /// writes go to the board; `$6000-$7FFF` writes go to a claiming board
    /// and, unclaimed or falling through, into PRG-RAM; `$8000-$FFFF` writes
    /// (bus conflicts applied) go to the board; lower addresses are not the
    /// cartridge's.
    /// Everything but the board state and the two RAMs agrees: ROM images,
    /// patches, sizes, header facts and the cached capability flags.
    pub open spec fn same_image(o: Self, n: Self) -> bool {
        &&& n.patches@ == o.patches@
        &&& Cartridge::same_image_but_patches(o, n)
    }

    /// `same_image` without the patch table.
    pub open spec fn same_image_but_patches(o: Self, n: Self) -> bool {
        &&& n.prg_rom@ == o.prg_rom@ && n.chr_rom@ == o.chr_rom@
        &&& n.prg_ram_size == o.prg_ram_size && n.prg_nvram_size == o.prg_nvram_size
        &&& n.chr_ram_size == o.chr_ram_size && n.chr_nvram_size == o.chr_nvram_size
        &&& n.uses_chr_ram == o.uses_chr_ram && n.has_battery == o.has_battery
        &&& n.mapper_number == o.mapper_number && n.submapper == o.submapper
        &&& n.mapper_watches_ppu_bus == o.mapper_watches_ppu_bus && n.mapper_clocks_cpu == o.mapper_clocks_cpu
        &&& n.mapper_has_expansion_audio == o.mapper_has_expansion_audio
        &&& n.mapper_has_chr_read == o.mapper_has_chr_read
        &&& n.header_mirroring == o.header_mirroring && n.is_nes20 == o.is_nes20
        &&& n.region_hint == o.region_hint
    }

    pub open spec fn cpu_wrote(o: Self, n: Self, addr: u16, value: u8, r: bool) -> bool {
        &&& Cartridge::same_image(o, n) && n.chr_ram@ == o.chr_ram@ && n.prg_ram@.len() == o.prg_ram@.len()
        &&& 0x4018 <= addr <= 0x5FFF ==> r && Mapper::expansion_wrote(o.mapper, n.mapper, addr, value)
                && n.prg_ram@ == o.prg_ram@
        &&& 0x6000 <= addr <= 0x7FFF ==> r == o.mapper.claims_low_spec(addr)
                && Mapper::low_wrote(o.mapper, n.mapper, addr, value)
                && n.prg_ram@ == (if (!r || o.mapper.low_register_write_falls_through_spec(addr))
                    && addr - 0x6000 < o.prg_ram@.len()
                    { o.prg_ram@.update(addr - 0x6000, value) } else { o.prg_ram@ })
        &&& addr >= 0x8000 ==> r && Mapper::wrote(o.mapper, n.mapper, addr, o.conflicted(addr, value))
                && n.prg_ram@ == o.prg_ram@
        &&& addr < 0x4018 ==> !r && n == o
    }

    /// A CPU write to cartridge space; true when the cartridge handled it.
    pub fn cpu_write(&mut self, addr: u16, value: u8) -> (r: bool)
        requires old(self).wf(),
        ensures final(self).wf(), Cartridge::cpu_wrote(*old(self), *final(self), addr, value, r),
    {
        if 0x4018 <= addr && addr <= 0x5FFF {
            self.mapper.write_expansion(addr, value);
            true
        } else if 0x6000 <= addr && addr <= 0x7FFF {
            let falls = self.mapper.low_register_write_falls_through(addr);
            let mapper_register = self.mapper.write_low_register(addr, value);
            if !mapper_register || falls {
                let i = (addr - 0x6000) as usize;
                if i < self.prg_ram.len() {
                    self.prg_ram.set(i, value);
                }
            }
            mapper_register
        } else if addr >= 0x8000 {
            let value = if self.mapper.has_bus_conflicts() {
                value & read_wrapped(&self.prg_rom, self.mapper.prg_index(addr))
            } else {
                value
            };
            self.mapper.write_register(addr, value);
            true
        } else {
            false
        }
    }

    // ---- PPU bus ($0000-$1FFF) ----

    pub open spec fn ppu_value(&self, addr: u16) -> u8 {
        let a = (addr % 0x2000) as u16;
        if self.mapper_has_chr_read && self.mapper.chr_read_spec(a, ChrAccess::Default) is Some {
            self.mapper.chr_read_spec(a, ChrAccess::Default)->Some_0
        } else if self.uses_chr_ram {
            wrapped(self.chr_ram@, self.mapper.chr_index_spec(a) as int)
        } else {
            wrapped(self.chr_rom@, self.mapper.chr_index_spec(a) as int)
        }
    }

    pub fn ppu_read(&self, addr: u16) -> (r: u8)
        requires self.wf(),
        ensures r == self.ppu_value(addr),
    {
        self.ppu_read_for(addr, ChrAccess::Default)
    }

    pub fn ppu_read_for(&self, addr: u16, access: ChrAccess) -> (r: u8)
        requires self.wf(),
        ensures
            ({
                let a = (addr % 0x2000) as u16;
                r == if self.mapper_has_chr_read && self.mapper.chr_read_spec(a, access) is Some {
                    self.mapper.chr_read_spec(a, access)->Some_0
                } else if self.uses_chr_ram {
                    wrapped(self.chr_ram@, self.mapper.chr_index_spec(a) as int)
                } else {
                    wrapped(self.chr_rom@, self.mapper.chr_index_spec(a) as int)
                }
            }),
    {
        let addr = (addr % 0x2000);
        if self.mapper_has_chr_read {
            if let Some(b) = self.mapper.chr_read(addr, access) {
                return b;
            }
        }
        let i = self.mapper.chr_index_for(addr, access);
        if self.uses_chr_ram {
            read_wrapped(&self.chr_ram, i)
        } else {
            read_wrapped(&self.chr_rom, i)
        }
    }

    /// A PPU pattern-table write: board-owned CHR first, else CHR-RAM (when
    /// the cartridge uses it); CHR-ROM ignores writes.
    pub open spec fn ppu_wrote(o: Self, n: Self, addr: u16, value: u8) -> bool {
        let a = (addr % 0x2000) as u16;
        &&& Mapper::chr_wrote(o.mapper, n.mapper, a, value)
        &&& n.chr_ram@ == (if !o.mapper.claims_chr_write_spec(a) && o.uses_chr_ram && o.chr_ram@.len() > 0 {
                o.chr_ram@.update(o.mapper.chr_index_spec(a) as int % (o.chr_ram@.len() as int), value)
            } else {
                o.chr_ram@
            })
        &&& Cartridge::same_image(o, n) && n.prg_ram@ == o.prg_ram@
    }

    pub fn ppu_write(&mut self, addr: u16, value: u8)
        requires old(self).wf(),
        ensures Cartridge::ppu_wrote(*old(self), *final(self), addr, value), final(self).wf(),
    {
        let a = (addr % 0x2000);
        let claimed = self.mapper.chr_write(a, value);
        if claimed {
            return;
        }
        if self.uses_chr_ram {
            if self.chr_ram.len() > 0 {
                let i = wrap_index(self.mapper.chr_index(a), self.chr_ram.len());
                self.chr_ram.set(i, value);
            }
        }
    }

    /// A nametable read (`$2000-$2FFF`, mirrored up to `$3EFF`) the board
    /// answers itself from the CIRAM pages it picks, if it does.
    pub fn nametable_read(&mut self, addr: u16, ciram: &[u8; 0x1000]) -> (r: Option<u8>)
        requires old(self).wf(), (addr / 0x2000) % 2 == 1,
        ensures r == old(self).mapper.peek_nametable_spec(addr, ciram), *final(self) == *old(self),
    {
        self.mapper.nametable_read(addr, ciram)
    }

    pub fn peek_nametable(&self, addr: u16, ciram: &[u8; 0x1000]) -> (r: Option<u8>)
        requires self.wf(), (addr / 0x2000) % 2 == 1,
        ensures r == self.mapper.peek_nametable_spec(addr, ciram),
    {
        self.mapper.peek_nametable(addr, ciram)
    }

    /// A nametable write the board routes itself; true when it did.
    pub fn nametable_write(&mut self, addr: u16, value: u8, ciram: &mut [u8; 0x1000]) -> (r: bool)
        requires old(self).wf(), (addr / 0x2000) % 2 == 1,
        ensures
            r == old(self).mapper.claims_nametable_write_spec(addr),
            old(self).mapper.nametable_wrote(addr, value, old(ciram)@, final(ciram)@),
            *final(self) == *old(self),
    {
        self.mapper.nametable_write(addr, value, ciram)
    }

    pub fn mirroring(&self) -> (r: Mirroring)
        requires self.wf(),
        ensures r == self.mapper.mirroring_spec(),
    {
        self.mapper.mirroring()
    }
}


/// PRG image of the placeholder cartridge: NOPs ($EA) throughout, with
/// the NMI, reset and IRQ vectors ($FFFA, $FFFC, $FFFE) all pointing at
/// $8000.
pub open spec fn placeholder_prg() -> Seq<u8> {
    Seq::new(0x4000, |i: int| if i == 0x3FFB || i == 0x3FFD || i == 0x3FFF { 0x80u8 } else if i == 0x3FFA || i == 0x3FFC || i == 0x3FFE { 0x00u8 } else { 0xEAu8 })
}

impl Cartridge {
    /// A minimal valid NROM cartridge (used before a game loads): 16 KiB of
    /// NOPs with the NMI, reset and IRQ vectors at $8000, 8 KiB of zero CHR-ROM,
    /// 8 KiB of PRG-RAM, horizontal mirroring.
    pub fn empty() -> (r: Cartridge)
        ensures
            r.wf(),
            r.prg_rom@ == placeholder_prg(),
            r.chr_rom@ == Seq::new(0x2000, |i: int| 0u8),
            r.chr_ram@.len() == 0,
            r.prg_ram@ == Seq::new(0x2000, |i: int| 0u8),
            r.prg_ram_size == 0x2000 && r.prg_nvram_size == 0 && r.chr_ram_size == 0x2000 && r.chr_nvram_size == 0,
            !r.uses_chr_ram && !r.has_battery && !r.is_nes20,
            r.mapper_number == 0 && r.submapper == 0,
            r.mapper == Mapper::Nrom(crate::mapper::board::Nrom { prg_16k: 1, mirroring: Mirroring::Horizontal }),
            r.header_mirroring == Mirroring::Horizontal,
            r.region_hint is None,
            r.patches@ == Map::<u16, (u8, Option<u8>)>::empty(),
            r.caps_fresh(),
    {
        let mut prg: Vec<u8> = Vec::new();
        let mut i: usize = 0;
        while i < 0x4000
            invariant
                i <= 0x4000,
                prg@ == placeholder_prg().subrange(0, i as int),
            decreases 0x4000 - i,
        {
            let b: u8 = if i == 0x3FFB || i == 0x3FFD || i == 0x3FFF { 0x80 } else if i == 0x3FFA || i == 0x3FFC || i == 0x3FFE { 0x00 } else { 0xEA };
            prg.push(b);
            i += 1;
            assert(prg@ =~= placeholder_prg().subrange(0, i as int));
        }
        assert(placeholder_prg().subrange(0, 0x4000) =~= placeholder_prg());
        let mapper = Mapper::Nrom(crate::mapper::board::Nrom::new(1, Mirroring::Horizontal));
        let mapper_watches_ppu_bus = mapper.watches_ppu_bus();
        let mapper_clocks_cpu = mapper.clocks_cpu();
        let mapper_has_chr_read = mapper.has_chr_read();
        Cartridge {
            prg_rom: prg,
            chr_rom: zeros(0x2000),
            chr_ram: Vec::new(),
            prg_ram: zeros(0x2000),
            prg_ram_size: 0x2000,
            prg_nvram_size: 0,
            chr_ram_size: 0x2000,
            chr_nvram_size: 0,
            uses_chr_ram: false,
            has_battery: false,
            mapper_number: 0,
            submapper: 0,
            mapper,
            mapper_watches_ppu_bus,
            mapper_clocks_cpu,
            mapper_has_expansion_audio: false,
            mapper_has_chr_read,
            header_mirroring: Mirroring::Horizontal,
            is_nes20: false,
            region_hint: None,
            patches: HashMap::new(),
        }
    }

    /// The iNES image that `empty` describes (16-byte header, PRG, CHR).
    pub fn empty_image() -> (r: Vec<u8>)
        ensures
            r@.len() == 16 + 0x4000 + 0x2000,
            r@.subrange(16, 0x4010) == placeholder_prg(),
            magic_ok(r@),
            r@[4] == 1 && r@[5] == 1 && r@[6] == 0 && r@[7] == 0,
    {
        let mut rom = zeros(16 + 0x4000 + 0x2000);
        rom.set(0, 0x4E);
        rom.set(1, 0x45);
        rom.set(2, 0x53);
        rom.set(3, 0x1A);
        rom.set(4, 1);
        rom.set(5, 1);
        let mut i: usize = 16;
        while i < 16 + 0x4000
            invariant
                16 <= i <= 16 + 0x4000,
                rom@.len() == 16 + 0x4000 + 0x2000,
                rom@[0] == 0x4E && rom@[1] == 0x45 && rom@[2] == 0x53 && rom@[3] == 0x1A,
                rom@[4] == 1 && rom@[5] == 1 && rom@[6] == 0 && rom@[7] == 0,
                forall|k: int| 16 <= k < i ==> rom@[k] == placeholder_prg()[k - 16],
            decreases 16 + 0x4000 - i,
        {
            let j = i - 16;
            let b: u8 = if j == 0x3FFB || j == 0x3FFD || j == 0x3FFF { 0x80 } else if j == 0x3FFA || j == 0x3FFC || j == 0x3FFE { 0x00 } else { 0xEA };
            rom.set(i, b);
            i += 1;
        }
        assert(rom@.subrange(16, 0x4010) =~= placeholder_prg());
        rom
    }
}

pub open spec fn region_hint_from_name_spec(name: Seq<u8>) -> Option<Region> {
    let l = lower_seq(name);
    if occurs(l, "dendy".spec_bytes()) {
        Some(Region::Dendy)
    } else if occurs(l, "(e)".spec_bytes()) || occurs(l, "[e]".spec_bytes()) || occurs(l, "(europe)".spec_bytes())
        || occurs(l, "[europe]".spec_bytes()) || occurs(l, "(australia)".spec_bytes())
        || occurs(l, "(germany)".spec_bytes()) || occurs(l, "(spain)".spec_bytes())
        || occurs(l, "(france)".spec_bytes()) || occurs(l, "(italy)".spec_bytes())
        || occurs(l, "(f)".spec_bytes()) || occurs(l, "(g)".spec_bytes()) || occurs(l, "(i)".spec_bytes())
        || occurs(l, "(pal)".spec_bytes()) || occurs(l, "[pal]".spec_bytes()) {
        Some(Region::Pal)
    } else if occurs(l, "(usa)".spec_bytes()) || occurs(l, "[usa]".spec_bytes()) || occurs(l, "(japan)".spec_bytes())
        || occurs(l, "[japan]".spec_bytes()) || occurs(l, "(ntsc)".spec_bytes()) || occurs(l, "[ntsc]".spec_bytes()) {
        Some(Region::Ntsc)
    } else {
        None
    }
}

pub fn has_magic(data: &[u8]) -> (r: bool)
    ensures r == magic_ok(data@),
{
    data.len() >= 4 && data[0] == 0x4E && data[1] == 0x45 && data[2] == 0x53 && data[3] == 0x1A
}


/// Read-after-write on PRG-RAM: a CPU write to `$6000-$7FFF` that lands in
/// PRG-RAM (unclaimed by the board, or falling through) is what the next CPU
/// read of that address returns, unless the board then drives that read or
/// maps PRG-ROM there.
pub proof fn lemma_prg_ram_read_back(c: Cartridge, n: Cartridge, addr: u16, value: u8, r: bool, open_bus: u8)
    requires
        c.wf(),
        Cartridge::cpu_wrote(c, n, addr, value, r),
        0x6000 <= addr <= 0x7FFF,
        addr - 0x6000 < c.prg_ram@.len(),
        !r || c.mapper.low_register_write_falls_through_spec(addr),
        n.mapper.peek_low_register_with_open_bus_spec(addr, value, open_bus) is None,
        n.mapper.low_prg_index_spec(addr) is None,
    ensures
        n.cpu_value(addr, open_bus) == value,
{
    let i = addr - 0x6000;
    let len = c.prg_ram@.len() as int;
    assert(n.prg_ram@ == c.prg_ram@.update(i, value));
    assert(i % len == i) by (nonlinear_arith)
        requires 0 <= i < len;
    assert(wrapped(n.prg_ram@, i) == value);
}

/// Read-after-write on CHR-RAM: a pattern write the board does not absorb
/// lands in CHR-RAM, and a read of the same address returns it while the
/// board supplies no CHR byte itself and maps the address to the same place.
pub proof fn lemma_chr_ram_read_back(c: Cartridge, n: Cartridge, addr: u16, value: u8)
    requires
        c.wf(),
        Cartridge::ppu_wrote(c, n, addr, value),
        c.uses_chr_ram,
        c.chr_ram@.len() > 0,
        !c.mapper.claims_chr_write_spec((addr % 0x2000) as u16),
        !(n.mapper_has_chr_read && n.mapper.chr_read_spec((addr % 0x2000) as u16, ChrAccess::Default) is Some),
        n.mapper.chr_index_spec((addr % 0x2000) as u16) == c.mapper.chr_index_spec((addr % 0x2000) as u16),
    ensures
        n.ppu_value(addr) == value,
{
    let a = (addr % 0x2000) as u16;
    let i = c.mapper.chr_index_spec(a) as int;
    let len = c.chr_ram@.len() as int;
    assert(n.chr_ram@.len() == len);
    assert(n.chr_ram@[i % len] == value);
}

/// On an NROM board a PPU pattern write reads back when the cartridge has
/// CHR-RAM, and changes nothing a PPU read sees when it has CHR-ROM.
pub proof fn lemma_nrom_pattern_write(c: Cartridge, n: Cartridge, addr: u16, value: u8)
    requires
        c.wf(),
        c.mapper is Nrom,
        Cartridge::ppu_wrote(c, n, addr, value),
    ensures
        c.uses_chr_ram && c.chr_ram@.len() > 0 ==> n.ppu_value(addr) == value,
        !c.uses_chr_ram ==> n.chr_rom@ == c.chr_rom@ && n.chr_ram@ == c.chr_ram@
            && forall|a: u16| #[trigger] n.ppu_value(a) == c.ppu_value(a),
{
    assert(n.mapper == c.mapper);
    if c.uses_chr_ram && c.chr_ram@.len() > 0 {
        lemma_chr_ram_read_back(c, n, addr, value);
    }
}

/// A cartridge loaded from an image whose header says mapper 0 has an NROM
/// board, so `lemma_nrom_pattern_write` applies to it.
pub proof fn lemma_mapper_zero_is_nrom(c: Cartridge, d: Seq<u8>)
    requires c.loaded_from(d), mapper_number_of(d) == 0,
    ensures c.mapper is Nrom, c.mapper_number == 0,
{
}

/// On every board, a PPU pattern write to a cartridge with CHR-ROM leaves
/// CHR-ROM and CHR-RAM as they were; when the board's own state is also
/// untouched by the write, no PPU read changes.
pub proof fn lemma_chr_rom_read_only(c: Cartridge, n: Cartridge, addr: u16, value: u8)
    requires
        c.wf(),
        !c.uses_chr_ram,
        Cartridge::ppu_wrote(c, n, addr, value),
    ensures
        n.chr_rom@ == c.chr_rom@ && n.chr_ram@ == c.chr_ram@,
        n.mapper == c.mapper ==> forall|a: u16| #[trigger] n.ppu_value(a) == c.ppu_value(a),
{
}

/// Law: a header without the four-screen bit (bit 3 of byte 6) declares
/// vertical mirroring exactly when bit 0 of byte 6 is set and horizontal
/// otherwise; with the bit it declares four-screen. A mapper 0 cartridge
/// mirrors as its header says.
pub proof fn lemma_header_mirroring(c: Cartridge, d: Seq<u8>)
    requires c.loaded_from(d), d.len() >= 16,
    ensures
        c.header_mirroring == (if (d[6] / 8) % 2 == 1 { Mirroring::FourScreen }
            else if d[6] % 2 == 1 { Mirroring::Vertical } else { Mirroring::Horizontal }),
        mapper_number_of(d) == 0 ==> c.mapper.mirroring_spec() == c.header_mirroring,
{
    let b = d[6];
    assert((b & 0x08 != 0) == ((b / 8) % 2 == 1) && (b & 0x01 != 0) == (b % 2 == 1)) by (bit_vector);
}

/// Law: an iNES 1.0 image (byte 7 bits 2-3 not `10`) is laid out as
/// header, optional 512-byte trainer (bit 2 of byte 6), then byte 4 units
/// of 16 KiB PRG-ROM (0 meaning 256) and byte 5 units of 8 KiB CHR-ROM;
/// with no CHR-ROM the cartridge uses CHR-RAM. Bit 1 of byte 6 declares a
/// battery.
pub proof fn lemma_ines_layout(c: Cartridge, d: Seq<u8>)
    requires c.loaded_from(d), d.len() >= 16, (d[7] / 4) % 4 != 2,
    ensures
        ({
            let t = 16 + (if (d[6] / 4) % 2 == 1 { 512int } else { 0int });
            let prg = (if d[4] == 0 { 256int } else { d[4] as int }) * 0x4000;
            let chr = d[5] * 0x2000;
            &&& c.prg_rom@ == d.subrange(t, t + prg)
            &&& d[5] > 0 ==> c.chr_rom@ == d.subrange(t + prg, t + prg + chr) && !c.uses_chr_ram
            &&& d[5] == 0 ==> c.uses_chr_ram && c.chr_rom@.len() == 0
            &&& c.has_battery == ((d[6] / 2) % 2 == 1)
            &&& !c.is_nes20
        }),
{
    let b6 = d[6];
    let b7 = d[7];
    assert((b7 & 0x0C == 0x08) == ((b7 / 4) % 4 == 2) && (b6 & 0x04 != 0) == ((b6 / 4) % 2 == 1)
        && (b6 & 0x02 != 0) == ((b6 / 2) % 2 == 1)) by (bit_vector);
}

} // verus!
