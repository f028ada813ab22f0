//! The attribute stream: type-length-value records, each padded to a
//! multiple of four bytes, that carry every field of every message.
//!
//! An attribute is a four-byte header (length including the header, then the
//! type code, both in host order, which is little-endian on the machines this
//! library is written for; the two top bits of the type are flags), the
//! payload, and zero bytes up to the next multiple of four.

use vstd::prelude::*;
use vstd::slice::slice_subrange;
use crate::bytes::{from_le16, get_le16, le16, lemma_le16_roundtrip, push_le16};
use crate::error::{BuilderError, DecodeError};
use crate::sys::{NLA_F_NESTED, NLA_MAX_PAYLOAD};

verus! {

/// Number of bytes that bring a length of `n` to the next multiple of four.
pub open spec fn padding(n: int) -> int {
    (4 - n % 4) % 4
}

/// `n` rounded up to the next multiple of four.
pub open spec fn aligned(n: int) -> int {
    n + padding(n)
}

/// `n` zero bytes.
pub open spec fn zeros(n: int) -> Seq<u8> {
    Seq::new(n as nat, |i: int| 0u8)
}

/// Whether a payload is short enough for the 16-bit length field.
pub open spec fn attr_fits(payload: Seq<u8>) -> bool {
    payload.len() <= NLA_MAX_PAYLOAD
}

/// The encoding of one attribute: header, payload, padding.
pub open spec fn attr_bytes(ty: u16, payload: Seq<u8>) -> Seq<u8> {
    le16((4 + payload.len()) as u16) + le16(ty) + payload + zeros(padding(payload.len() as int))
}

/// The type field of a nested attribute with the given code.
pub open spec fn nested_type(code: u16) -> u16 {
    code | NLA_F_NESTED
}

/// The code in a type field: the field without its two flag bits.
pub open spec fn type_code(ty: u16) -> u16 {
    (ty % 0x4000) as u16
}

/// The first attribute of a stream, and the stream after it.
pub struct AttrView {
    /// The attribute's code, flags removed.
    pub code: u16,
    /// The attribute's payload, without header and padding.
    pub payload: Seq<u8>,
    /// The bytes that follow the attribute's padding.
    pub rest: Seq<u8>,
}

/// Splits the first attribute off a non-empty stream.
///
/// Fails when fewer than four bytes are left, when the header claims less
/// than its own size or more than is left, and when the padding would end
/// past the stream.
#[verifier::opaque]
pub open spec fn first_attr(b: Seq<u8>) -> Result<AttrView, DecodeError> {
    if b.len() < 4 {
        Err(DecodeError::BufTooSmall)
    } else {
        let len = from_le16(b.subrange(0, 2)) as int;
        let ty = from_le16(b.subrange(2, 4));
        if len < 4 {
            Err(DecodeError::InvalidAttributeLength)
        } else if len > b.len() {
            Err(DecodeError::AttributeTooLong)
        } else if aligned(len) > b.len() {
            Err(DecodeError::MissingPadding)
        } else {
            Ok(
                AttrView {
                    code: type_code(ty),
                    payload: b.subrange(4, len),
                    rest: b.subrange(aligned(len), b.len() as int),
                },
            )
        }
    }
}

/// All attributes of a stream, as pairs of code and payload, in order.
pub open spec fn parse_attrs(b: Seq<u8>) -> Result<Seq<(u16, Seq<u8>)>, DecodeError>
    decreases b.len(),
    via parse_attrs_decreases
{
    if b.len() == 0 {
        Ok(Seq::empty())
    } else {
        match first_attr(b) {
            Err(e) => Err(e),
            Ok(a) => if a.rest.len() < b.len() {
                match parse_attrs(a.rest) {
                    Err(e) => Err(e),
                    Ok(s) => Ok(seq![(a.code, a.payload)] + s),
                }
            } else {
                Err(DecodeError::BufTooSmall)
            },
        }
    }
}

#[via_fn]
proof fn parse_attrs_decreases(b: Seq<u8>) {
    lemma_first_attr_rest(b);
}

/// What follows the first attribute of a stream is shorter than the stream.
pub proof fn lemma_first_attr_rest(b: Seq<u8>)
    ensures
        first_attr(b) matches Ok(a) ==> a.rest.len() < b.len(),
{
    reveal(first_attr);
}

/// An encoded attribute is its header and payload rounded up to a multiple
/// of four bytes.
pub proof fn lemma_attr_len(ty: u16, payload: Seq<u8>)
    ensures
        attr_bytes(ty, payload).len() == aligned(4 + payload.len() as int),
        attr_bytes(ty, payload).len() % 4 == 0,
        4 + payload.len() <= attr_bytes(ty, payload).len() < 4 + payload.len() + 4,
{
}

/// The nested flag does not change the code that a reader sees.
pub broadcast proof fn lemma_nested_type_code(code: u16)
    ensures
        #[trigger] type_code(nested_type(code)) == type_code(code),
        code <= 0x3fff ==> type_code(code) == code,
{
    assert((code | 0x8000u16) % 0x4000 == code % 0x4000) by (bit_vector);
}

/// A reader that meets an encoded attribute finds its code and payload, and
/// goes on exactly where the next attribute starts.
pub proof fn lemma_first_attr(ty: u16, payload: Seq<u8>, tail: Seq<u8>)
    requires
        attr_fits(payload),
    ensures
        first_attr(attr_bytes(ty, payload) + tail) == Ok::<AttrView, DecodeError>(
            AttrView { code: type_code(ty), payload, rest: tail },
        ),
{
    reveal(first_attr);
    let b = attr_bytes(ty, payload) + tail;
    let n = (4 + payload.len()) as u16;
    lemma_le16_roundtrip(n);
    lemma_le16_roundtrip(ty);
    assert(b.subrange(0, 2) =~= le16(n));
    assert(b.subrange(2, 4) =~= le16(ty));
    assert(b.subrange(4, 4 + payload.len() as int) =~= payload);
    assert(b.subrange(aligned(4 + payload.len() as int), b.len() as int) =~= tail);
}

/// Parsing a stream that starts with an encoded attribute yields that
/// attribute, then whatever the rest of the stream parses to.
pub proof fn lemma_parse_attrs_cons(ty: u16, payload: Seq<u8>, tail: Seq<u8>)
    requires
        attr_fits(payload),
    ensures
        parse_attrs(attr_bytes(ty, payload) + tail) == prepend_attrs(
            seq![(type_code(ty), payload)],
            parse_attrs(tail),
        ),
{
    let a = attr_bytes(ty, payload);
    lemma_first_attr(ty, payload, tail);
    lemma_attr_len(ty, payload);
    assert((a + tail).len() == a.len() + tail.len());
}

/// Two attributes written one after the other are read back as those two,
/// in that order: the second header is found right after the first padding.
pub proof fn lemma_two_attrs(ty_a: u16, first: Seq<u8>, ty_b: u16, second: Seq<u8>)
    requires
        attr_fits(first),
        attr_fits(second),
    ensures
        parse_attrs(attr_bytes(ty_a, first) + attr_bytes(ty_b, second)) == Ok::<
            Seq<(u16, Seq<u8>)>,
            DecodeError,
        >(seq![(type_code(ty_a), first), (type_code(ty_b), second)]),
{
    let b = attr_bytes(ty_b, second);
    let ea = (type_code(ty_a), first);
    let eb = (type_code(ty_b), second);
    lemma_parse_attrs_cons(ty_a, first, b);
    lemma_parse_attrs_cons(ty_b, second, Seq::empty());
    assert(b + Seq::<u8>::empty() =~= b);
    assert(parse_attrs(Seq::<u8>::empty()) == Ok::<Seq<(u16, Seq<u8>)>, DecodeError>(Seq::empty()));
    assert(seq![eb] + Seq::empty() =~= seq![eb]);
    assert(seq![ea] + seq![eb] =~= seq![ea, eb]);
}

/// Appends `n` zero bytes.
fn push_zeros(buf: &mut Vec<u8>, n: usize)
    ensures
        final(buf)@ == old(buf)@ + zeros(n as int),
{
    let mut i: usize = 0;
    while i < n
        invariant
            i <= n,
            buf@ == old(buf)@ + zeros(i as int),
        decreases n - i,
    {
        buf.push(0u8);
        i += 1;
    }
}

/// Number of padding bytes after `n` bytes.
fn padding_of(n: usize) -> (p: usize)
    ensures
        p == padding(n as int),
{
    (4 - n % 4) % 4
}

/// Appends one attribute: the header with the code and the length, the
/// payload, and zero bytes up to the next multiple of four.
///
/// Fails, and leaves the buffer as it was, exactly when the payload is too
/// long for the length field.
pub fn write_attribute(buf: &mut Vec<u8>, ty: u16, payload: &[u8]) -> (r: Result<(), BuilderError>)
    ensures
        r is Ok <==> attr_fits(payload@),
        r is Ok ==> final(buf)@ == old(buf)@ + attr_bytes(ty, payload@),
        r is Err ==> r == Err::<(), BuilderError>(BuilderError::AttributeTooLarge) && final(buf)@
            == old(buf)@,
{
    let n = payload.len();
    if n > NLA_MAX_PAYLOAD {
        return Err(BuilderError::AttributeTooLarge);
    }
    push_le16(buf, (n + 4) as u16);
    push_le16(buf, ty);
    buf.extend_from_slice(payload);
    push_zeros(buf, padding_of(n));
    Ok(())
}

/// Opens a nested attribute: appends a header with the nested flag and a
/// length that is filled in by [`end_nested`]. Returns where the header is.
pub fn begin_nested(buf: &mut Vec<u8>, code: u16) -> (start: usize)
    ensures
        start == old(buf)@.len(),
        final(buf)@ == old(buf)@ + le16(4) + le16(nested_type(code)),
{
    let start = buf.len();
    push_le16(buf, 4);
    push_le16(buf, code | NLA_F_NESTED);
    start
}

/// Closes the attribute whose header is at `start`: everything written after
/// the header becomes its payload, the length is patched into the header and
/// the padding is added.
///
/// Fails exactly when that payload is too long for the length field.
pub fn end_nested(buf: &mut Vec<u8>, start: usize) -> (r: Result<(), BuilderError>)
    requires
        start + 4 <= old(buf)@.len(),
    ensures
        r is Ok <==> attr_fits(old(buf)@.subrange(start + 4, old(buf)@.len() as int)),
        r is Ok ==> final(buf)@ == old(buf)@.subrange(0, start as int) + attr_bytes(
            from_le16(old(buf)@.subrange(start + 2, start + 4)),
            old(buf)@.subrange(start + 4, old(buf)@.len() as int),
        ),
        r is Err ==> r == Err::<(), BuilderError>(BuilderError::AttributeTooLarge),
{
    let n = buf.len() - start - 4;
    if n > NLA_MAX_PAYLOAD {
        return Err(BuilderError::AttributeTooLarge);
    }
    let len: u16 = (n + 4) as u16;
    let ghost ty = from_le16(buf@.subrange(start + 2, start + 4));
    proof {
        lemma_le16_roundtrip(ty);
    }
    buf[start] = (len % 0x100) as u8;
    buf[start + 1] = (len / 0x100) as u8;
    push_zeros(buf, padding_of(n));
    proof {
        let payload = old(buf)@.subrange(start + 4, old(buf)@.len() as int);
        assert(le16(ty) =~= old(buf)@.subrange(start + 2, start + 4));
        assert(buf@ =~= old(buf)@.subrange(0, start as int) + attr_bytes(ty, payload));
    }
    Ok(())
}

/// A cursor over an attribute stream. It yields one attribute at a time and
/// can be set back to the start of the stream.
pub struct AttributeReader<'a> {
    bytes: &'a [u8],
    pos: usize,
}

impl<'a> AttributeReader<'a> {
    #[verifier::type_invariant]
    spec fn inv(self) -> bool {
        self.pos <= self.bytes@.len()
    }

    /// The whole stream that this cursor walks.
    pub closed spec fn stream(&self) -> Seq<u8> {
        self.bytes@
    }

    /// The part of the stream that has not been read yet.
    pub closed spec fn remaining(&self) -> Seq<u8> {
        self.bytes@.subrange(self.pos as int, self.bytes@.len() as int)
    }

    /// A cursor at the start of `bytes`.
    pub fn new(bytes: &'a [u8]) -> (r: Self)
        ensures
            r.stream() == bytes@,
            r.remaining() == bytes@,
    {
        assert(bytes@.subrange(0, bytes@.len() as int) =~= bytes@);
        AttributeReader { bytes, pos: 0 }
    }

    /// Sets the cursor back to the start of its stream.
    pub fn restart(&mut self)
        ensures
            final(self).stream() == old(self).stream(),
            final(self).remaining() == old(self).stream(),
    {
        assert(self.bytes@.subrange(0, self.bytes@.len() as int) =~= self.bytes@);
        self.pos = 0;
    }

    /// Whether every byte has been read.
    pub fn is_done(&self) -> (b: bool)
        ensures
            b == (self.remaining().len() == 0),
    {
        proof {
            use_type_invariant(self);
        }
        self.pos >= self.bytes.len()
    }

    /// Reads the next attribute: `None` at the end of the stream, else the
    /// code and the payload of the first attribute of what remained, as
    /// [`first_attr`] gives them. After an error the cursor has not moved.
    pub fn next(&mut self) -> (r: Result<Option<(u16, &'a [u8])>, DecodeError>)
        ensures
            final(self).stream() == old(self).stream(),
            match r {
                Ok(None) => old(self).remaining().len() == 0 && final(self).remaining() == old(
                    self,
                ).remaining(),
                Ok(Some((code, payload))) => old(self).remaining().len() > 0 && first_attr(
                    old(self).remaining(),
                ) == Ok::<AttrView, DecodeError>(
                    AttrView { code, payload: payload@, rest: final(self).remaining() },
                ) && final(self).remaining().len() < old(self).remaining().len(),
                Err(e) => old(self).remaining().len() > 0 && first_attr(old(self).remaining())
                    == Err::<AttrView, DecodeError>(e) && final(self).remaining() == old(
                    self,
                ).remaining(),
            },
    {
        proof {
            use_type_invariant(&*self);
            reveal(first_attr);
        }
        let total = self.bytes.len();
        let left = total - self.pos;
        if left == 0 {
            return Ok(None);
        }
        if left < 4 {
            return Err(DecodeError::BufTooSmall);
        }
        let ghost b = self.remaining();
        let len = get_le16(self.bytes, self.pos) as usize;
        let ty = get_le16(self.bytes, self.pos + 2);
        proof {
            assert(b.subrange(0, 2) =~= self.bytes@.subrange(self.pos as int, self.pos + 2));
            assert(b.subrange(2, 4) =~= self.bytes@.subrange(self.pos + 2, self.pos + 4));
        }
        if len < 4 {
            return Err(DecodeError::InvalidAttributeLength);
        }
        if len > left {
            return Err(DecodeError::AttributeTooLong);
        }
        let step = len + padding_of(len);
        if step > left {
            return Err(DecodeError::MissingPadding);
        }
        let payload = slice_subrange(self.bytes, self.pos + 4, self.pos + len);
        proof {
            assert(payload@ =~= b.subrange(4, len as int));
            assert(self.bytes@.subrange(self.pos + step, total as int) =~= b.subrange(
                step as int,
                b.len() as int,
            ));
        }
        self.pos = self.pos + step;
        Ok(Some(((ty % 0x4000) as u16, payload)))
    }
}

/// Reads a whole attribute stream into the list of its attributes, each a
/// code and a payload, in the order in which they stand.
pub fn read_attributes<'a>(bytes: &'a [u8]) -> (r: Result<Vec<(u16, &'a [u8])>, DecodeError>)
    ensures
        match r {
            Ok(v) => parse_attrs(bytes@) is Ok && v@.len() == parse_attrs(bytes@).unwrap().len()
                && forall|i: int|
                0 <= i < v@.len() ==> v@[i].0 == (#[trigger] parse_attrs(bytes@).unwrap()[i]).0
                    && v@[i].1@ == parse_attrs(bytes@).unwrap()[i].1,
            Err(e) => parse_attrs(bytes@) == Err::<Seq<(u16, Seq<u8>)>, DecodeError>(e),
        },
{
    let mut reader = AttributeReader::new(bytes);
    let mut out: Vec<(u16, &'a [u8])> = Vec::new();
    let ghost mut done: Seq<(u16, Seq<u8>)> = Seq::empty();
    loop
        invariant
            done.len() == out@.len(),
            forall|i: int|
                0 <= i < out@.len() ==> out@[i].0 == (#[trigger] done[i]).0 && out@[i].1@
                    == done[i].1,
            parse_attrs(bytes@) == prepend_attrs(done, parse_attrs(reader.remaining())),
        decreases reader.remaining().len(),
    {
        let ghost before = reader.remaining();
        match reader.next() {
            Err(e) => {
                return Err(e);
            },
            Ok(None) => {
                proof {
                    assert(done + Seq::<(u16, Seq<u8>)>::empty() =~= done);
                }
                return Ok(out);
            },
            Ok(Some((code, payload))) => {
                proof {
                    let rest = parse_attrs(reader.remaining());
                    if rest is Ok {
                        assert(done + (seq![(code, payload@)] + rest.unwrap()) =~= done.push(
                            (code, payload@),
                        ) + rest.unwrap());
                    }
                    done = done.push((code, payload@));
                }
                out.push((code, payload));
            },
        }
    }
}

/// The result of parsing a stream of which the attributes `done` have been
/// read and the rest parses as `rest`.
pub open spec fn prepend_attrs(
    done: Seq<(u16, Seq<u8>)>,
    rest: Result<Seq<(u16, Seq<u8>)>, DecodeError>,
) -> Result<Seq<(u16, Seq<u8>)>, DecodeError> {
    match rest {
        Err(e) => Err(e),
        Ok(s) => Ok(done + s),
    }
}

} // verus!
