//! Fixed-width integers as bytes, in network (big-endian) and in
//! little-endian order, with the proofs that reading undoes writing.

use vstd::prelude::*;
use crate::error::DecodeError;

verus! {

/// The two bytes of `v`, most significant first.
pub open spec fn be16(v: u16) -> Seq<u8> {
    seq![(v / 0x100) as u8, (v % 0x100) as u8]
}

/// The four bytes of `v`, most significant first.
pub open spec fn be32(v: u32) -> Seq<u8> {
    seq![
        (v / 0x100_0000) as u8,
        (v / 0x1_0000 % 0x100) as u8,
        (v / 0x100 % 0x100) as u8,
        (v % 0x100) as u8,
    ]
}

/// The eight bytes of `v`, most significant first.
pub open spec fn be64(v: u64) -> Seq<u8> {
    be32((v / 0x1_0000_0000) as u32) + be32((v % 0x1_0000_0000) as u32)
}

/// The two bytes of `v`, least significant first.
pub open spec fn le16(v: u16) -> Seq<u8> {
    seq![(v % 0x100) as u8, (v / 0x100) as u8]
}

/// The four bytes of `v`, least significant first.
pub open spec fn le32(v: u32) -> Seq<u8> {
    seq![
        (v % 0x100) as u8,
        (v / 0x100 % 0x100) as u8,
        (v / 0x1_0000 % 0x100) as u8,
        (v / 0x100_0000) as u8,
    ]
}

/// The number whose big-endian bytes are the first two of `b`.
pub open spec fn from_be16(b: Seq<u8>) -> u16
    recommends
        b.len() >= 2,
{
    (b[0] as int * 0x100 + b[1] as int) as u16
}

/// The number whose big-endian bytes are the first four of `b`.
pub open spec fn from_be32(b: Seq<u8>) -> u32
    recommends
        b.len() >= 4,
{
    (b[0] as int * 0x100_0000 + b[1] as int * 0x1_0000 + b[2] as int * 0x100 + b[3] as int) as u32
}

/// The number whose big-endian bytes are the first eight of `b`.
pub open spec fn from_be64(b: Seq<u8>) -> u64
    recommends
        b.len() >= 8,
{
    (from_be32(b.subrange(0, 4)) as int * 0x1_0000_0000 + from_be32(b.subrange(4, 8)) as int) as u64
}

/// The number whose little-endian bytes are the first two of `b`.
pub open spec fn from_le16(b: Seq<u8>) -> u16
    recommends
        b.len() >= 2,
{
    (b[1] as int * 0x100 + b[0] as int) as u16
}

/// The number whose little-endian bytes are the first four of `b`.
pub open spec fn from_le32(b: Seq<u8>) -> u32
    recommends
        b.len() >= 4,
{
    (b[3] as int * 0x100_0000 + b[2] as int * 0x1_0000 + b[1] as int * 0x100 + b[0] as int) as u32
}

/// What a one-byte field decodes to: its byte, if it has exactly one.
pub open spec fn decode_u8(b: Seq<u8>) -> Result<u8, DecodeError> {
    if b.len() == 1 {
        Ok(b[0])
    } else {
        Err(DecodeError::InvalidDataSize)
    }
}

/// What a big-endian 16-bit field decodes to, if it has exactly two bytes.
pub open spec fn decode_be16(b: Seq<u8>) -> Result<u16, DecodeError> {
    if b.len() == 2 {
        Ok(from_be16(b))
    } else {
        Err(DecodeError::InvalidDataSize)
    }
}

/// What a big-endian 32-bit field decodes to, if it has exactly four bytes.
pub open spec fn decode_be32(b: Seq<u8>) -> Result<u32, DecodeError> {
    if b.len() == 4 {
        Ok(from_be32(b))
    } else {
        Err(DecodeError::InvalidDataSize)
    }
}

/// What a big-endian 64-bit field decodes to, if it has exactly eight bytes.
pub open spec fn decode_be64(b: Seq<u8>) -> Result<u64, DecodeError> {
    if b.len() == 8 {
        Ok(from_be64(b))
    } else {
        Err(DecodeError::InvalidDataSize)
    }
}

/// Reading a big-endian 16-bit number gives back the number written.
pub proof fn lemma_be16_roundtrip(v: u16)
    ensures
        be16(v).len() == 2,
        from_be16(be16(v)) == v,
        decode_be16(be16(v)) == Ok::<u16, DecodeError>(v),
{
}

/// Reading a big-endian 32-bit number gives back the number written.
pub proof fn lemma_be32_roundtrip(v: u32)
    ensures
        be32(v).len() == 4,
        from_be32(be32(v)) == v,
        decode_be32(be32(v)) == Ok::<u32, DecodeError>(v),
{
}

/// Reading a big-endian 64-bit number gives back the number written.
pub proof fn lemma_be64_roundtrip(v: u64)
    ensures
        be64(v).len() == 8,
        from_be64(be64(v)) == v,
        decode_be64(be64(v)) == Ok::<u64, DecodeError>(v),
{
    let hi = (v / 0x1_0000_0000) as u32;
    let lo = (v % 0x1_0000_0000) as u32;
    lemma_be32_roundtrip(hi);
    lemma_be32_roundtrip(lo);
    assert(be64(v).subrange(0, 4) =~= be32(hi));
    assert(be64(v).subrange(4, 8) =~= be32(lo));
}

/// Reading a little-endian 16-bit number gives back the number written.
pub proof fn lemma_le16_roundtrip(v: u16)
    ensures
        le16(v).len() == 2,
        from_le16(le16(v)) == v,
{
}

/// Reading a little-endian 32-bit number gives back the number written.
pub proof fn lemma_le32_roundtrip(v: u32)
    ensures
        le32(v).len() == 4,
        from_le32(le32(v)) == v,
{
}

/// Appends `v` in big-endian order.
pub fn push_be16(buf: &mut Vec<u8>, v: u16)
    ensures
        final(buf)@ == old(buf)@ + be16(v),
{
    buf.push((v / 0x100) as u8);
    buf.push((v % 0x100) as u8);
}

/// Appends `v` in big-endian order.
pub fn push_be32(buf: &mut Vec<u8>, v: u32)
    ensures
        final(buf)@ == old(buf)@ + be32(v),
{
    buf.push((v / 0x100_0000) as u8);
    buf.push((v / 0x1_0000 % 0x100) as u8);
    buf.push((v / 0x100 % 0x100) as u8);
    buf.push((v % 0x100) as u8);
}

/// Appends `v` in big-endian order.
pub fn push_be64(buf: &mut Vec<u8>, v: u64)
    ensures
        final(buf)@ == old(buf)@ + be64(v),
{
    push_be32(buf, (v / 0x1_0000_0000) as u32);
    push_be32(buf, (v % 0x1_0000_0000) as u32);
}

/// Appends `v` in little-endian order.
pub fn push_le16(buf: &mut Vec<u8>, v: u16)
    ensures
        final(buf)@ == old(buf)@ + le16(v),
{
    buf.push((v % 0x100) as u8);
    buf.push((v / 0x100) as u8);
}

/// Appends `v` in little-endian order.
pub fn push_le32(buf: &mut Vec<u8>, v: u32)
    ensures
        final(buf)@ == old(buf)@ + le32(v),
{
    buf.push((v % 0x100) as u8);
    buf.push((v / 0x100 % 0x100) as u8);
    buf.push((v / 0x1_0000 % 0x100) as u8);
    buf.push((v / 0x100_0000) as u8);
}

/// Reads the little-endian 16-bit number at `pos`.
pub fn get_le16(b: &[u8], pos: usize) -> (v: u16)
    requires
        pos + 2 <= b.len(),
    ensures
        v == from_le16(b@.subrange(pos as int, pos + 2)),
{
    (b[pos + 1] as u16) * 0x100 + (b[pos] as u16)
}

/// Reads the little-endian 32-bit number at `pos`.
pub fn get_le32(b: &[u8], pos: usize) -> (v: u32)
    requires
        pos + 4 <= b.len(),
    ensures
        v == from_le32(b@.subrange(pos as int, pos + 4)),
{
    (b[pos + 3] as u32) * 0x100_0000 + (b[pos + 2] as u32) * 0x1_0000 + (b[pos + 1] as u32) * 0x100
        + (b[pos] as u32)
}

/// Reads a one-byte field.
pub fn read_u8(b: &[u8]) -> (r: Result<u8, DecodeError>)
    ensures
        r == decode_u8(b@),
{
    if b.len() == 1 {
        Ok(b[0])
    } else {
        Err(DecodeError::InvalidDataSize)
    }
}

/// Reads a big-endian 16-bit field.
pub fn read_be16(b: &[u8]) -> (r: Result<u16, DecodeError>)
    ensures
        r == decode_be16(b@),
{
    if b.len() == 2 {
        Ok((b[0] as u16) * 0x100 + (b[1] as u16))
    } else {
        Err(DecodeError::InvalidDataSize)
    }
}

/// Reads a big-endian 32-bit field.
pub fn read_be32(b: &[u8]) -> (r: Result<u32, DecodeError>)
    ensures
        r == decode_be32(b@),
{
    if b.len() == 4 {
        Ok(
            (b[0] as u32) * 0x100_0000 + (b[1] as u32) * 0x1_0000 + (b[2] as u32) * 0x100 + (
            b[3] as u32),
        )
    } else {
        Err(DecodeError::InvalidDataSize)
    }
}

/// Reads a big-endian 64-bit field.
pub fn read_be64(b: &[u8]) -> (r: Result<u64, DecodeError>)
    ensures
        r == decode_be64(b@),
{
    if b.len() == 8 {
        let hi: u64 = (b[0] as u64) * 0x100_0000 + (b[1] as u64) * 0x1_0000 + (b[2] as u64) * 0x100
            + (b[3] as u64);
        let lo: u64 = (b[4] as u64) * 0x100_0000 + (b[5] as u64) * 0x1_0000 + (b[6] as u64) * 0x100
            + (b[7] as u64);
        Ok(hi * 0x1_0000_0000 + lo)
    } else {
        Err(DecodeError::InvalidDataSize)
    }
}

} // verus!
