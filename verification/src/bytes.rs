//! Small byte-string utilities with exact contracts.

use vstd::prelude::*;

verus! {

use crate::types::{ascii_lower, lower_byte};

/// `n` zero bytes.
pub fn zeros(n: usize) -> (r: Vec<u8>)
    ensures r@ == Seq::new(n as nat, |i: int| 0u8),
{
    let mut v: Vec<u8> = Vec::new();
    let mut i: usize = 0;
    while i < n
        invariant
            i <= n,
            v@ == Seq::new(i as nat, |j: int| 0u8),
        decreases n - i,
    {
        v.push(0);
        i += 1;
        assert(v@ =~= Seq::new(i as nat, |j: int| 0u8));
    }
    v
}

/// A copy of `data[start..start + len]`.
pub fn copy_range(data: &[u8], start: usize, len: usize) -> (r: Vec<u8>)
    requires start + len <= data@.len(),
    ensures r@ == data@.subrange(start as int, start + len),
{
    let mut v: Vec<u8> = Vec::new();
    let mut i: usize = 0;
    let dl = data.len();
    while i < len
        invariant
            dl == data@.len(),
            i <= len,
            start + len <= data@.len(),
            v@ == data@.subrange(start as int, start + i),
        decreases len - i,
    {
        v.push(data[start + i]);
        i += 1;
        assert(v@ =~= data@.subrange(start as int, start + i));
    }
    v
}

pub open spec fn lower_seq(s: Seq<u8>) -> Seq<u8> {
    s.map_values(|b: u8| ascii_lower(b))
}

/// ASCII lower-casing of a byte string (other bytes unchanged).
pub fn to_ascii_lower(s: &[u8]) -> (r: Vec<u8>)
    ensures r@ == lower_seq(s@),
{
    let mut v: Vec<u8> = Vec::new();
    let mut i: usize = 0;
    while i < s.len()
        invariant
            i <= s@.len(),
            v@ == lower_seq(s@.subrange(0, i as int)),
        decreases s.len() - i,
    {
        v.push(lower_byte(s[i]));
        i += 1;
        assert(v@ =~= lower_seq(s@.subrange(0, i as int)));
    }
    assert(s@.subrange(0, s@.len() as int) =~= s@);
    v
}

/// Does `needle` occur as a contiguous run inside `hay`?
pub open spec fn occurs(hay: Seq<u8>, needle: Seq<u8>) -> bool {
    exists|i: int| 0 <= i && i + needle.len() <= hay.len() && #[trigger] hay.subrange(i, i + needle.len()) == needle
}

pub open spec fn occurs_at(hay: Seq<u8>, needle: Seq<u8>, i: int) -> bool {
    0 <= i && i + needle.len() <= hay.len() && hay.subrange(i, i + needle.len()) == needle
}

pub fn matches_at(hay: &[u8], needle: &[u8], i: usize) -> (r: bool)
    requires i + needle@.len() <= hay@.len(),
    ensures r == (hay@.subrange(i as int, i + needle@.len()) == needle@),
{
    let mut j: usize = 0;
    let hl = hay.len();
    while j < needle.len()
        invariant
            hl == hay@.len(),
            j <= needle@.len(),
            i + needle@.len() <= hay@.len(),
            forall|k: int| 0 <= k < j ==> hay@[i + k] == needle@[k],
        decreases needle.len() - j,
    {
        if hay[i + j] != needle[j] {
            assert(hay@.subrange(i as int, i + needle@.len())[j as int] != needle@[j as int]);
            return false;
        }
        j += 1;
    }
    assert(hay@.subrange(i as int, i + needle@.len()) =~= needle@);
    true
}

/// Substring search.
pub fn contains(hay: &[u8], needle: &[u8]) -> (r: bool)
    ensures r == occurs(hay@, needle@),
{
    if needle.len() > hay.len() {
        return false;
    }
    let mut i: usize = 0;
    let last = hay.len() - needle.len();
    while i < last
        invariant
            last == hay@.len() - needle@.len(),
            i <= last,
            forall|k: int| 0 <= k < i ==> !(#[trigger] hay@.subrange(k, k + needle@.len()) == needle@),
        decreases last - i,
    {
        if matches_at(hay, needle, i) {
            return true;
        }
        i += 1;
    }
    let r = matches_at(hay, needle, last);
    assert(!r ==> forall|k: int| 0 <= k <= last ==> !(#[trigger] hay@.subrange(k, k + needle@.len()) == needle@));
    r
}

} // verus!
