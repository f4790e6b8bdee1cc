//! Little-endian byte marshalling for the packed on-disk records: reading
//! and writing 16-, 32- and 64-bit words at byte offsets, with the
//! round-trip facts the directory and EFS parsers rest on.

use vstd::prelude::*;

verus! {

/// Byte `k` (from the least significant end) of a 16-bit word.
pub open spec fn u16_byte(v: u16, k: int) -> u8 {
    if k == 0 {
        (v as int % 0x100) as u8
    } else {
        (v as int / 0x100) as u8
    }
}

/// Byte `k` of a 32-bit word.
pub open spec fn u32_byte(v: u32, k: int) -> u8 {
    if k == 0 {
        (v as int % 0x100) as u8
    } else if k == 1 {
        (v as int / 0x100 % 0x100) as u8
    } else if k == 2 {
        (v as int / 0x10000 % 0x100) as u8
    } else {
        (v as int / 0x1000000 % 0x100) as u8
    }
}

/// Byte `k` of a 64-bit word.
pub open spec fn u64_byte(v: u64, k: int) -> u8 {
    if k == 0 {
        (v as int % 0x100) as u8
    } else if k == 1 {
        (v as int / 0x100 % 0x100) as u8
    } else if k == 2 {
        (v as int / 0x10000 % 0x100) as u8
    } else if k == 3 {
        (v as int / 0x1000000 % 0x100) as u8
    } else if k == 4 {
        (v as int / 0x1_0000_0000 % 0x100) as u8
    } else if k == 5 {
        (v as int / 0x100_0000_0000 % 0x100) as u8
    } else if k == 6 {
        (v as int / 0x1_0000_0000_0000 % 0x100) as u8
    } else {
        (v as int / 0x100_0000_0000_0000 % 0x100) as u8
    }
}

pub open spec fn u16_le_bytes(v: u16) -> Seq<u8> {
    Seq::new(2, |k: int| u16_byte(v, k))
}

pub open spec fn u32_le_bytes(v: u32) -> Seq<u8> {
    Seq::new(4, |k: int| u32_byte(v, k))
}

pub open spec fn u64_le_bytes(v: u64) -> Seq<u8> {
    Seq::new(8, |k: int| u64_byte(v, k))
}

/// The 16-bit word whose little-endian bytes start at `at` in `s`.
pub open spec fn spec_u16_le(s: Seq<u8>, at: int) -> u16
    recommends
        0 <= at,
        at + 2 <= s.len(),
{
    (s[at] + s[at + 1] * 0x100) as u16
}

/// The 32-bit word whose little-endian bytes start at `at` in `s`.
pub open spec fn spec_u32_le(s: Seq<u8>, at: int) -> u32
    recommends
        0 <= at,
        at + 4 <= s.len(),
{
    (s[at] + s[at + 1] * 0x100 + s[at + 2] * 0x10000 + s[at + 3] * 0x1000000) as u32
}

/// The 64-bit word whose little-endian bytes start at `at` in `s`.
pub open spec fn spec_u64_le(s: Seq<u8>, at: int) -> u64
    recommends
        0 <= at,
        at + 8 <= s.len(),
{
    (s[at] + s[at + 1] * 0x100 + s[at + 2] * 0x10000 + s[at + 3] * 0x1000000 + s[at + 4]
        * 0x1_0000_0000 + s[at + 5] * 0x100_0000_0000 + s[at + 6] * 0x1_0000_0000_0000 + s[at + 7]
        * 0x100_0000_0000_0000) as u64
}

/// Reassembling a 16-bit word from its little-endian bytes gives it back.
pub proof fn lemma_u16_le_round_trip(v: u16)
    ensures
        spec_u16_le(u16_le_bytes(v), 0) == v,
{
    assert(v as int % 0x100 + (v as int / 0x100) * 0x100 == v) by (bit_vector);
}

/// Reassembling a 32-bit word from its little-endian bytes gives it back.
pub proof fn lemma_u32_le_round_trip(v: u32)
    ensures
        spec_u32_le(u32_le_bytes(v), 0) == v,
{
    assert(v as int % 0x100 + (v as int / 0x100 % 0x100) * 0x100 + (v as int / 0x10000 % 0x100)
        * 0x10000 + (v as int / 0x1000000 % 0x100) * 0x1000000 == v) by (bit_vector);
}

/// Reassembling a 64-bit word from its little-endian bytes gives it back.
pub proof fn lemma_u64_le_round_trip(v: u64)
    ensures
        spec_u64_le(u64_le_bytes(v), 0) == v,
{
    assert(v as int % 0x100 + (v as int / 0x100 % 0x100) * 0x100 + (v as int / 0x10000 % 0x100)
        * 0x10000 + (v as int / 0x1000000 % 0x100) * 0x1000000 + (v as int / 0x1_0000_0000 % 0x100)
        * 0x1_0000_0000 + (v as int / 0x100_0000_0000 % 0x100) * 0x100_0000_0000 + (v as int
        / 0x1_0000_0000_0000 % 0x100) * 0x1_0000_0000_0000 + (v as int / 0x100_0000_0000_0000
        % 0x100) * 0x100_0000_0000_0000 == v) by (bit_vector);
}

pub fn read_u16_le(buf: &[u8], at: usize) -> (r: u16)
    requires
        at + 2 <= buf@.len(),
    ensures
        r == spec_u16_le(buf@, at as int),
{
    (buf[at] as u16) + (buf[at + 1] as u16) * 0x100
}

pub fn read_u32_le(buf: &[u8], at: usize) -> (r: u32)
    requires
        at + 4 <= buf@.len(),
    ensures
        r == spec_u32_le(buf@, at as int),
{
    (buf[at] as u32) + (buf[at + 1] as u32) * 0x100 + (buf[at + 2] as u32) * 0x10000 + (buf[at + 3]
        as u32) * 0x1000000
}

pub fn read_u64_le(buf: &[u8], at: usize) -> (r: u64)
    requires
        at + 8 <= buf@.len(),
    ensures
        r == spec_u64_le(buf@, at as int),
{
    (buf[at] as u64) + (buf[at + 1] as u64) * 0x100 + (buf[at + 2] as u64) * 0x10000 + (buf[at + 3]
        as u64) * 0x1000000 + (buf[at + 4] as u64) * 0x1_0000_0000 + (buf[at + 5] as u64)
        * 0x100_0000_0000 + (buf[at + 6] as u64) * 0x1_0000_0000_0000 + (buf[at + 7] as u64)
        * 0x100_0000_0000_0000
}

pub fn push_u16_le(out: &mut Vec<u8>, v: u16)
    ensures
        final(out)@ == old(out)@ + u16_le_bytes(v),
{
    out.push((v % 0x100) as u8);
    out.push((v / 0x100) as u8);
    proof {
        assert(final(out)@ =~= old(out)@ + u16_le_bytes(v));
    }
}

pub fn push_u32_le(out: &mut Vec<u8>, v: u32)
    ensures
        final(out)@ == old(out)@ + u32_le_bytes(v),
{
    out.push((v % 0x100) as u8);
    out.push((v / 0x100 % 0x100) as u8);
    out.push((v / 0x10000 % 0x100) as u8);
    out.push((v / 0x1000000 % 0x100) as u8);
    proof {
        assert(final(out)@ =~= old(out)@ + u32_le_bytes(v));
    }
}

pub fn push_u64_le(out: &mut Vec<u8>, v: u64)
    ensures
        final(out)@ == old(out)@ + u64_le_bytes(v),
{
    out.push((v % 0x100) as u8);
    out.push((v / 0x100 % 0x100) as u8);
    out.push((v / 0x10000 % 0x100) as u8);
    out.push((v / 0x1000000 % 0x100) as u8);
    out.push((v / 0x1_0000_0000 % 0x100) as u8);
    out.push((v / 0x100_0000_0000 % 0x100) as u8);
    out.push((v / 0x1_0000_0000_0000 % 0x100) as u8);
    out.push((v / 0x100_0000_0000_0000 % 0x100) as u8);
    proof {
        assert(final(out)@ =~= old(out)@ + u64_le_bytes(v));
    }
}

} // verus!
