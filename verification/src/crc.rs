//! CRC-32 of a ROM image, used to recognise known-bad headers.

use vstd::prelude::*;

verus! {

/// Eight steps of the reflected CRC-32 shift register (polynomial
/// $EDB88320), `n` bits at a time.
pub open spec fn crc_shift(c: u32, n: nat) -> u32
    decreases n,
{
    if n == 0 {
        c
    } else {
        crc_shift(if c & 1 == 1 { (c >> 1u32) ^ 0xEDB8_8320u32 } else { c >> 1u32 }, (n - 1) as nat)
    }
}

/// The register after feeding `data` into a register preset to all ones.
pub open spec fn crc_register(data: Seq<u8>) -> u32
    decreases data.len(),
{
    if data.len() == 0 {
        0xFFFF_FFFFu32
    } else {
        crc_shift(crc_register(data.drop_last()) ^ (data.last() as u32), 8)
    }
}

/// The CRC-32 (IEEE 802.3: reflected, polynomial $04C11DB7, preset and
/// final complement) of a byte string.
pub open spec fn crc32_of(data: Seq<u8>) -> u32 {
    crc_register(data) ^ 0xFFFF_FFFFu32
}

/// `crc32fast::hash`: the CRC-32 checksum of `data`. The contract claims
/// that it is the standard IEEE CRC-32 that `crc32_of` defines bit by bit
/// (crc32fast computes it with table or SIMD folding, not bit by bit).
#[verifier::external_body]
pub(crate) fn crc32(data: &[u8]) -> (r: u32)
    ensures r == crc32_of(data@),
{
    crc32fast::hash(data)
}

} // verus!
