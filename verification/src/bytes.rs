//! Little-endian field encoding and decoding over byte vectors.
//!
//! The capture-record header and the wire packets are laid out field by field
//! in little-endian order; these helpers make that layout explicit instead of
//! relying on any in-memory representation.

use vstd::prelude::*;

verus! {

/// The 16-bit little-endian value at `off`.
pub open spec fn le16_spec(b: Seq<u8>, off: int) -> u16
    recommends
        0 <= off,
        off + 2 <= b.len(),
{
    (b[off] as u16) | (b[off + 1] as u16) << 8
}

/// The 32-bit little-endian value at `off`.
pub open spec fn le32_spec(b: Seq<u8>, off: int) -> u32
    recommends
        0 <= off,
        off + 4 <= b.len(),
{
    (b[off] as u32) | (b[off + 1] as u32) << 8 | (b[off + 2] as u32) << 16 | (b[off + 3] as u32)
        << 24
}

/// The 64-bit little-endian value at `off`.
pub open spec fn le64_spec(b: Seq<u8>, off: int) -> u64
    recommends
        0 <= off,
        off + 8 <= b.len(),
{
    (b[off] as u64) | (b[off + 1] as u64) << 8 | (b[off + 2] as u64) << 16 | (b[off + 3] as u64)
        << 24 | (b[off + 4] as u64) << 32 | (b[off + 5] as u64) << 40 | (b[off + 6] as u64) << 48
        | (b[off + 7] as u64) << 56
}

pub fn read_le16(b: &Vec<u8>, off: usize) -> (r: u16)
    requires
        off + 2 <= b.len(),
    ensures
        r == le16_spec(b@, off as int),
{
    (b[off] as u16) | (b[off + 1] as u16) << 8u16
}

pub fn read_le32(b: &Vec<u8>, off: usize) -> (r: u32)
    requires
        off + 4 <= b.len(),
    ensures
        r == le32_spec(b@, off as int),
{
    (b[off] as u32) | (b[off + 1] as u32) << 8u32 | (b[off + 2] as u32) << 16u32 | (b[off
        + 3] as u32) << 24u32
}

pub fn read_le64(b: &Vec<u8>, off: usize) -> (r: u64)
    requires
        off + 8 <= b.len(),
    ensures
        r == le64_spec(b@, off as int),
{
    (b[off] as u64) | (b[off + 1] as u64) << 8u64 | (b[off + 2] as u64) << 16u64 | (b[off
        + 3] as u64) << 24u64 | (b[off + 4] as u64) << 32u64 | (b[off + 5] as u64) << 40u64 | (b[off
        + 6] as u64) << 48u64 | (b[off + 7] as u64) << 56u64
}

/// The 32-bit big-endian value at `off`.
pub open spec fn be32_spec(b: Seq<u8>, off: int) -> u32
    recommends
        0 <= off,
        off + 4 <= b.len(),
{
    (b[off] as u32) << 24 | (b[off + 1] as u32) << 16 | (b[off + 2] as u32) << 8 | (b[off
        + 3] as u32)
}

pub fn read_be32(b: &Vec<u8>, off: usize) -> (r: u32)
    requires
        off + 4 <= b.len(),
    ensures
        r == be32_spec(b@, off as int),
{
    (b[off] as u32) << 24u32 | (b[off + 1] as u32) << 16u32 | (b[off + 2] as u32) << 8u32 | (b[off
        + 3] as u32)
}

/// The two little-endian bytes of a 16-bit value.
pub open spec fn u16_bytes_spec(v: u16) -> Seq<u8> {
    seq![(v & 0xff) as u8, ((v >> 8) & 0xff) as u8]
}

/// The four little-endian bytes of a 32-bit value.
pub open spec fn u32_bytes_spec(v: u32) -> Seq<u8> {
    seq![
        (v & 0xff) as u8,
        ((v >> 8) & 0xff) as u8,
        ((v >> 16) & 0xff) as u8,
        ((v >> 24) & 0xff) as u8,
    ]
}

/// The eight little-endian bytes of a 64-bit value.
pub open spec fn u64_bytes_spec(v: u64) -> Seq<u8> {
    seq![
        (v & 0xff) as u8,
        ((v >> 8) & 0xff) as u8,
        ((v >> 16) & 0xff) as u8,
        ((v >> 24) & 0xff) as u8,
        ((v >> 32) & 0xff) as u8,
        ((v >> 40) & 0xff) as u8,
        ((v >> 48) & 0xff) as u8,
        ((v >> 56) & 0xff) as u8,
    ]
}

pub fn push_le16(out: &mut Vec<u8>, v: u16)
    ensures
        final(out)@ == old(out)@ + u16_bytes_spec(v),
{
    assert((v & 0xff) < 256 && ((v >> 8u16) & 0xff) < 256) by (bit_vector);
    out.push((v & 0xff) as u8);
    out.push(((v >> 8u16) & 0xff) as u8);
    assert(final(out)@ =~= old(out)@ + u16_bytes_spec(v));
}

pub fn push_le32(out: &mut Vec<u8>, v: u32)
    ensures
        final(out)@ == old(out)@ + u32_bytes_spec(v),
{
    assert((v & 0xff) < 256 && ((v >> 8u32) & 0xff) < 256 && ((v >> 16u32) & 0xff) < 256 && ((v
        >> 24u32) & 0xff) < 256) by (bit_vector);
    out.push((v & 0xff) as u8);
    out.push(((v >> 8u32) & 0xff) as u8);
    out.push(((v >> 16u32) & 0xff) as u8);
    out.push(((v >> 24u32) & 0xff) as u8);
    assert(final(out)@ =~= old(out)@ + u32_bytes_spec(v));
}

pub fn push_le64(out: &mut Vec<u8>, v: u64)
    ensures
        final(out)@ == old(out)@ + u64_bytes_spec(v),
{
    assert((v & 0xff) < 256 && ((v >> 8u64) & 0xff) < 256 && ((v >> 16u64) & 0xff) < 256 && ((v
        >> 24u64) & 0xff) < 256 && ((v >> 32u64) & 0xff) < 256 && ((v >> 40u64) & 0xff) < 256 && ((v
        >> 48u64) & 0xff) < 256 && ((v >> 56u64) & 0xff) < 256) by (bit_vector);
    out.push((v & 0xff) as u8);
    out.push(((v >> 8u64) & 0xff) as u8);
    out.push(((v >> 16u64) & 0xff) as u8);
    out.push(((v >> 24u64) & 0xff) as u8);
    out.push(((v >> 32u64) & 0xff) as u8);
    out.push(((v >> 40u64) & 0xff) as u8);
    out.push(((v >> 48u64) & 0xff) as u8);
    out.push(((v >> 56u64) & 0xff) as u8);
    assert(final(out)@ =~= old(out)@ + u64_bytes_spec(v));
}

/// Reading back the two encoded bytes yields the encoded value.
pub proof fn lemma_le16_round_trip(v: u16)
    ensures
        le16_spec(u16_bytes_spec(v), 0) == v,
{
    assert(((v & 0xff) as u8 as u16) | (((v >> 8u16) & 0xff) as u8 as u16) << 8u16 == v)
        by (bit_vector);
}

/// Reading back the four encoded bytes yields the encoded value.
pub proof fn lemma_le32_round_trip(v: u32)
    ensures
        le32_spec(u32_bytes_spec(v), 0) == v,
{
    assert(((v & 0xff) as u8 as u32) | (((v >> 8u32) & 0xff) as u8 as u32) << 8u32 | (((v >> 16u32)
        & 0xff) as u8 as u32) << 16u32 | (((v >> 24u32) & 0xff) as u8 as u32) << 24u32 == v)
        by (bit_vector);
}

/// Reading back the eight encoded bytes yields the encoded value.
pub proof fn lemma_le64_round_trip(v: u64)
    ensures
        le64_spec(u64_bytes_spec(v), 0) == v,
{
    assert(((v & 0xff) as u8 as u64) | (((v >> 8u64) & 0xff) as u8 as u64) << 8u64 | (((v >> 16u64)
        & 0xff) as u8 as u64) << 16u64 | (((v >> 24u64) & 0xff) as u8 as u64) << 24u64 | (((v
        >> 32u64) & 0xff) as u8 as u64) << 32u64 | (((v >> 40u64) & 0xff) as u8 as u64) << 40u64 | (((
    v >> 48u64) & 0xff) as u8 as u64) << 48u64 | (((v >> 56u64) & 0xff) as u8 as u64) << 56u64 == v)
        by (bit_vector);
}

/// A copy of a byte buffer.
pub fn clone_bytes(b: &Vec<u8>) -> (r: Vec<u8>)
    ensures
        r@ == b@,
{
    let mut r: Vec<u8> = Vec::new();
    let mut i: usize = 0;
    while i < b.len()
        invariant
            i <= b@.len(),
            r@ == b@.subrange(0, i as int),
        decreases b@.len() - i,
    {
        r.push(b[i]);
        assert(r@ =~= b@.subrange(0, i + 1));
        i = i + 1;
    }
    assert(r@ =~= b@);
    r
}

/// Byte-for-byte vector equality, decided against the views.
pub fn bytes_eq(a: &Vec<u8>, b: &Vec<u8>) -> (r: bool)
    ensures
        r == (a@ == b@),
{
    if a.len() != b.len() {
        return false;
    }
    let mut i: usize = 0;
    while i < a.len()
        invariant
            i <= a@.len(),
            a@.len() == b@.len(),
            forall|j: int| 0 <= j < i ==> a@[j] == b@[j],
        decreases a@.len() - i,
    {
        if a[i] != b[i] {
            return false;
        }
        i = i + 1;
    }
    assert(a@ =~= b@);
    true
}

} // verus!
