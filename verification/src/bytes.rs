//! Reading and writing fixed-width unsigned integers inside byte buffers.

use vstd::prelude::*;
use vstd::arithmetic::div_mod::{
    lemma_div_denominator, lemma_fundamental_div_mod, lemma_small_mod,
};

verus! {

/// Byte order of a multi-byte integer field.
#[derive(Clone, Copy, Debug, PartialEq, Eq, Structural)]
pub enum ByteOrder {
    Little,
    Big,
}

/// The unsigned 16-bit value stored at offset `i` of `b`.
pub open spec fn spec_u16_at(b: Seq<u8>, i: int, order: ByteOrder) -> int
    recommends
        0 <= i,
        i + 2 <= b.len(),
{
    match order {
        ByteOrder::Little => b[i] + 0x100 * b[i + 1],
        ByteOrder::Big => 0x100 * b[i] + b[i + 1],
    }
}

/// The unsigned 32-bit value stored at offset `i` of `b`.
pub open spec fn spec_u32_at(b: Seq<u8>, i: int, order: ByteOrder) -> int
    recommends
        0 <= i,
        i + 4 <= b.len(),
{
    match order {
        ByteOrder::Little => b[i] + 0x100 * b[i + 1] + 0x1_0000 * b[i + 2] + 0x100_0000 * b[i
            + 3],
        ByteOrder::Big => 0x100_0000 * b[i] + 0x1_0000 * b[i + 1] + 0x100 * b[i + 2] + b[i + 3],
    }
}

/// The unsigned 64-bit value stored at offset `i` of `b`.
pub open spec fn spec_u64_at(b: Seq<u8>, i: int, order: ByteOrder) -> int
    recommends
        0 <= i,
        i + 8 <= b.len(),
{
    match order {
        ByteOrder::Little => b[i] + 0x100 * b[i + 1] + 0x1_0000 * b[i + 2] + 0x100_0000 * b[i + 3]
            + 0x1_0000_0000 * b[i + 4] + 0x100_0000_0000 * b[i + 5] + 0x1_0000_0000_0000 * b[i + 6]
            + 0x100_0000_0000_0000 * b[i + 7],
        ByteOrder::Big => 0x100_0000_0000_0000 * b[i] + 0x1_0000_0000_0000 * b[i + 1]
            + 0x100_0000_0000 * b[i + 2] + 0x1_0000_0000 * b[i + 3] + 0x100_0000 * b[i + 4]
            + 0x1_0000 * b[i + 5] + 0x100 * b[i + 6] + b[i + 7],
    }
}

/// Reads the unsigned 16-bit field at offset `i`.
pub fn read_u16(b: &[u8], i: usize, order: ByteOrder) -> (r: u16)
    requires
        i + 2 <= b@.len(),
    ensures
        r == spec_u16_at(b@, i as int, order),
{
    match order {
        ByteOrder::Little => b[i] as u16 + 0x100 * (b[i + 1] as u16),
        ByteOrder::Big => 0x100 * (b[i] as u16) + b[i + 1] as u16,
    }
}

/// Reads the unsigned 32-bit field at offset `i`.
pub fn read_u32(b: &[u8], i: usize, order: ByteOrder) -> (r: u32)
    requires
        i + 4 <= b@.len(),
    ensures
        r == spec_u32_at(b@, i as int, order),
{
    match order {
        ByteOrder::Little => b[i] as u32 + 0x100 * (b[i + 1] as u32) + 0x1_0000 * (b[i + 2] as u32)
            + 0x100_0000 * (b[i + 3] as u32),
        ByteOrder::Big => 0x100_0000 * (b[i] as u32) + 0x1_0000 * (b[i + 1] as u32) + 0x100 * (b[i
            + 2] as u32) + b[i + 3] as u32,
    }
}

/// Reads the unsigned 64-bit field at offset `i`.
pub fn read_u64(b: &[u8], i: usize, order: ByteOrder) -> (r: u64)
    requires
        i + 8 <= b@.len(),
    ensures
        r == spec_u64_at(b@, i as int, order),
{
    match order {
        ByteOrder::Little => b[i] as u64 + 0x100 * (b[i + 1] as u64) + 0x1_0000 * (b[i + 2] as u64)
            + 0x100_0000 * (b[i + 3] as u64) + 0x1_0000_0000 * (b[i + 4] as u64)
            + 0x100_0000_0000 * (b[i + 5] as u64) + 0x1_0000_0000_0000 * (b[i + 6] as u64)
            + 0x100_0000_0000_0000 * (b[i + 7] as u64),
        ByteOrder::Big => 0x100_0000_0000_0000 * (b[i] as u64) + 0x1_0000_0000_0000 * (b[i
            + 1] as u64) + 0x100_0000_0000 * (b[i + 2] as u64) + 0x1_0000_0000 * (b[i + 3] as u64)
            + 0x100_0000 * (b[i + 4] as u64) + 0x1_0000 * (b[i + 5] as u64) + 0x100 * (b[i
            + 6] as u64) + b[i + 7] as u64,
    }
}

/// The four-byte little-endian encoding of `n`, for `0 <= n < 2^32`.
pub open spec fn spec_le32_bytes(n: int) -> Seq<u8>
    recommends
        0 <= n < 0x1_0000_0000,
{
    seq![
        (n % 0x100) as u8,
        ((n / 0x100) % 0x100) as u8,
        ((n / 0x1_0000) % 0x100) as u8,
        ((n / 0x100_0000) % 0x100) as u8,
    ]
}

/// Decoding the four little-endian bytes of `n` gives back `n`.
pub proof fn lemma_le32_round_trip(n: int)
    requires
        0 <= n < 0x1_0000_0000,
    ensures
        spec_le32_bytes(n).len() == 4,
        spec_u32_at(spec_le32_bytes(n), 0, ByteOrder::Little) == n,
{
    let s = spec_le32_bytes(n);
    lemma_fundamental_div_mod(n, 0x100);
    lemma_fundamental_div_mod(n / 0x100, 0x100);
    lemma_div_denominator(n, 0x100, 0x100);
    lemma_fundamental_div_mod(n / 0x1_0000, 0x100);
    lemma_div_denominator(n, 0x1_0000, 0x100);
    assert(n / 0x100_0000 < 0x100) by (nonlinear_arith)
        requires
            0 <= n < 0x1_0000_0000,
    ;
    lemma_small_mod((n / 0x100_0000) as nat, 0x100);
    assert(n == s[0] + 0x100 * s[1] + 0x1_0000 * s[2] + 0x100_0000 * s[3]);
}

/// Appends the four-byte little-endian encoding of `x` to `out`.
pub fn append_le32(out: &mut Vec<u8>, x: u32)
    ensures
        final(out)@ == old(out)@ + spec_le32_bytes(x as int),
{
    out.push((x % 0x100) as u8);
    out.push(((x / 0x100) % 0x100) as u8);
    out.push(((x / 0x1_0000) % 0x100) as u8);
    out.push(((x / 0x100_0000) % 0x100) as u8);
    assert(out@ =~= old(out)@ + spec_le32_bytes(x as int));
}

} // verus!
