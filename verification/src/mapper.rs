//! Cartridge mappers: each translates CPU addresses ($8000-$FFFF) into
//! PRG-ROM byte indices and PPU addresses ($0000-$1FFF) into CHR byte
//! indices, and holds the live nametable mirroring. The cartridge owns the
//! actual ROM/RAM and resolves the indices, so mappers stay pure logic.

use vstd::prelude::*;

pub mod bank;
pub mod board;
pub mod latch;
pub mod discrete;
pub mod ave;
pub mod sachen;
pub mod sunsoft;
pub mod longtail;
pub mod opencorp;
pub mod subor;
pub mod nanjing;
pub mod ntdec;
pub mod txc;
pub mod namco;
pub mod special;
pub mod sl12;
pub mod taito;
pub mod multicart;
pub mod multicart2;
pub mod latch_boards;
pub mod irem;
pub mod konami;
pub mod irq_boards;
pub mod unlicensed;
pub mod bootleg;
pub mod jy;
pub mod bandai;
pub mod kind;

verus! {

/// Most 16 KiB PRG banks a (1 GiB-capped) image can hold.
pub const MAX_PRG_16K: usize = 0x10000;
/// Most 8 KiB CHR banks a (1 GiB-capped) image can hold.
pub const MAX_CHR_8K: usize = 0x20000;

/// Which PPU fetch a CHR access belongs to.
#[derive(Debug, Clone, Copy, PartialEq, Eq, Structural)]
pub enum ChrAccess {
    Default,
    Background,
    Sprite,
}

pub open spec fn max1(n: usize) -> usize {
    if n == 0 { 1 } else { n }
}

/// `n.max(1)`.
pub fn at_least_one(n: usize) -> (r: usize)
    ensures r == max1(n),
{
    if n == 0 { 1 } else { n }
}

} // verus!
