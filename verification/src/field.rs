//! The field types of the schemas: how a value of each type becomes an
//! attribute payload and how a payload becomes a value again.
//!
//! Numbers are written in network byte order. Text is written as UTF-8 with
//! a terminating zero byte. A nested object is written as its own attribute
//! stream, under a type field that carries the nested flag.

use vstd::prelude::*;
use vstd::slice::slice_subrange;
use vstd::utf8::{
    decode_utf8, encode_utf8, encode_utf8_decode_utf8, encode_utf8_valid_utf8, valid_utf8,
};
use crate::attr::{
    attr_bytes, attr_fits, begin_nested, end_nested, lemma_nested_type_code, nested_type,
    write_attribute,
};
use crate::bytes::{
    be16, be32, be64, decode_be16, decode_be32, decode_be64, decode_u8, le16,
    lemma_be16_roundtrip, lemma_be32_roundtrip, lemma_be64_roundtrip, lemma_le16_roundtrip,
    push_be16, push_be32, push_be64, read_be32, read_u8,
};
use crate::error::{BuilderError, DecodeError};
use crate::schema::{
    decode_model, field_bytes, field_fits, fields_fit, fields_wire, lemma_unfit_is_long, Attr,
    Fields, Lossless, NfNetlinkAttribute,
};

verus! {

/// An enumeration that goes on the wire as a number.
pub trait WireEnum: Sized + Copy {
    /// The number that stands for a variant.
    spec fn code(self) -> u32;

    /// The variant that a number stands for, if any.
    spec fn of_code(c: u32) -> Option<Self>;

    /// The number that stands for this variant.
    fn to_code(self) -> (c: u32)
        ensures
            c == self.code(),
    ;

    /// The variant that `c` stands for; `None` when it stands for none.
    fn from_code(c: u32) -> (r: Option<Self>)
        ensures
            r == Self::of_code(c),
    ;

    /// Every variant is found again from its number.
    proof fn lemma_code(self)
        ensures
            Self::of_code(self.code()) == Some(self),
    ;
}

/// A field of one byte.
pub open spec fn u8_field(code: u16, v: Option<u8>) -> Option<Attr> {
    match v {
        None => None,
        Some(x) => Some(Attr { ty: code, payload: seq![x] }),
    }
}

/// A field of a 16-bit number.
pub open spec fn be16_field(code: u16, v: Option<u16>) -> Option<Attr> {
    match v {
        None => None,
        Some(x) => Some(Attr { ty: code, payload: be16(x) }),
    }
}

/// A field of a 32-bit number.
pub open spec fn be32_field(code: u16, v: Option<u32>) -> Option<Attr> {
    match v {
        None => None,
        Some(x) => Some(Attr { ty: code, payload: be32(x) }),
    }
}

/// A field of a 64-bit number.
pub open spec fn be64_field(code: u16, v: Option<u64>) -> Option<Attr> {
    match v {
        None => None,
        Some(x) => Some(Attr { ty: code, payload: be64(x) }),
    }
}

/// A field of an enumeration, written as the 32-bit number of the variant.
pub open spec fn enum_field<E: WireEnum>(code: u16, v: Option<E>) -> Option<Attr> {
    match v {
        None => None,
        Some(x) => Some(Attr { ty: code, payload: be32(x.code()) }),
    }
}

/// The one byte that stands for a variant of a small enumeration.
pub open spec fn enum8_payload<E: WireEnum>(x: E) -> Seq<u8> {
    seq![x.code() as u8]
}

/// A field of an enumeration with fewer than 256 variants, written as one
/// byte.
pub open spec fn enum8_field<E: WireEnum>(code: u16, v: Option<E>) -> Option<Attr> {
    match v {
        None => None,
        Some(x) => Some(Attr { ty: code, payload: enum8_payload(x) }),
    }
}

/// A field of raw bytes.
pub open spec fn bytes_field(code: u16, v: Option<Seq<u8>>) -> Option<Attr> {
    match v {
        None => None,
        Some(x) => Some(Attr { ty: code, payload: x }),
    }
}

/// Text as it goes on the wire: its UTF-8 bytes and a zero byte.
pub open spec fn c_string(s: Seq<char>) -> Seq<u8> {
    encode_utf8(s) + seq![0u8]
}

/// A field of text.
pub open spec fn string_field(code: u16, v: Option<Seq<char>>) -> Option<Attr> {
    match v {
        None => None,
        Some(x) => Some(Attr { ty: code, payload: c_string(x) }),
    }
}

/// A field that holds an object with the given schema.
pub open spec fn nested_field(code: u16, v: Option<Fields>) -> Option<Attr> {
    match v {
        None => None,
        Some(f) => Some(Attr { ty: nested_type(code), payload: fields_wire(f) }),
    }
}

/// The fields of an optional object, from its model.
pub open spec fn model_fields<T: NfNetlinkAttribute>(v: Option<T::V>) -> Option<Fields> {
    match v {
        None => None,
        Some(m) => Some(T::fields(m)),
    }
}

/// The model of an optional object.
pub open spec fn opt_model<T: View>(v: Option<T>) -> Option<T::V> {
    match v {
        None => None,
        Some(o) => Some(o@),
    }
}

/// What an enumeration field decodes to: the variant that its 32-bit number
/// stands for.
pub open spec fn decode_enum<E: WireEnum>(b: Seq<u8>) -> Result<E, DecodeError> {
    match decode_be32(b) {
        Err(e) => Err(e),
        Ok(c) => match E::of_code(c) {
            None => Err(DecodeError::UnknownDiscriminant(c)),
            Some(x) => Ok(x),
        },
    }
}

/// What a one-byte enumeration field decodes to.
pub open spec fn decode_enum8<E: WireEnum>(b: Seq<u8>) -> Result<E, DecodeError> {
    match decode_u8(b) {
        Err(e) => Err(e),
        Ok(c) => match E::of_code(c as u32) {
            None => Err(DecodeError::UnknownDiscriminant(c as u32)),
            Some(x) => Ok(x),
        },
    }
}

/// A payload without its last byte, if that byte is zero.
pub open spec fn strip_nul(b: Seq<u8>) -> Seq<u8> {
    if b.len() > 0 && b.last() == 0 {
        b.drop_last()
    } else {
        b
    }
}

/// What a text field decodes to: the text of its bytes up to the
/// terminating zero byte, if they are valid UTF-8.
pub closed spec fn decode_string(b: Seq<u8>) -> Result<Seq<char>, DecodeError> {
    if valid_utf8(strip_nul(b)) {
        Ok(decode_utf8(strip_nul(b)))
    } else {
        Err(DecodeError::InvalidUtf8)
    }
}

/// What [`decode_string`] is: the text is that of the bytes without one
/// terminating zero byte, and there is one exactly when those are valid
/// UTF-8.
pub proof fn lemma_decode_string_def(b: Seq<u8>)
    ensures
        decode_string(b) == (if valid_utf8(strip_nul(b)) {
            Ok::<Seq<char>, DecodeError>(decode_utf8(strip_nul(b)))
        } else {
            Err::<Seq<char>, DecodeError>(DecodeError::InvalidUtf8)
        }),
{
}

/// A number field is read back as the number written.
pub broadcast proof fn lemma_decode_be16(v: u16)
    ensures
        #[trigger] decode_be16(be16(v)) == Ok::<u16, DecodeError>(v),
        attr_fits(be16(v)),
{
    lemma_be16_roundtrip(v);
}

/// A number field is read back as the number written.
pub broadcast proof fn lemma_decode_be32(v: u32)
    ensures
        #[trigger] decode_be32(be32(v)) == Ok::<u32, DecodeError>(v),
        attr_fits(be32(v)),
{
    lemma_be32_roundtrip(v);
}

/// A number field is read back as the number written.
pub broadcast proof fn lemma_decode_be64(v: u64)
    ensures
        #[trigger] decode_be64(be64(v)) == Ok::<u64, DecodeError>(v),
        attr_fits(be64(v)),
{
    lemma_be64_roundtrip(v);
}

/// An enumeration field is read back as the variant written.
pub broadcast proof fn lemma_decode_enum<E: WireEnum>(x: E)
    ensures
        #[trigger] decode_enum::<E>(be32(x.code())) == Ok::<E, DecodeError>(x),
{
    lemma_be32_roundtrip(x.code());
    x.lemma_code();
}

/// A one-byte enumeration field is read back as the variant written, if the
/// variant's number fits a byte.
pub broadcast proof fn lemma_decode_enum8<E: WireEnum>(x: E)
    requires
        x.code() < 0x100,
    ensures
        #[trigger] decode_enum8::<E>(enum8_payload(x)) == Ok::<E, DecodeError>(x),
{
    x.lemma_code();
}

/// A text field is read back as the text written.
pub broadcast proof fn lemma_decode_string(s: Seq<char>)
    ensures
        #[trigger] decode_string(c_string(s)) == Ok::<Seq<char>, DecodeError>(s),
{
    assert(strip_nul(c_string(s)) =~= encode_utf8(s));
    encode_utf8_valid_utf8(s);
    encode_utf8_decode_utf8(s);
}

/// A nested object is read back as the object written.
pub broadcast proof fn lemma_decode_nested<T: Lossless>(m: T::V)
    requires
        T::valid(m),
        attr_fits(fields_wire(T::fields(m))),
    ensures
        #[trigger] decode_model::<T>(fields_wire(T::fields(m))) == Ok::<T::V, DecodeError>(m),
{
    if !fields_fit(T::fields(m)) {
        lemma_unfit_is_long(T::fields(m), 0);
    }
    T::lemma_roundtrip(m);
}

pub broadcast group group_field_roundtrip {
    lemma_nested_type_code,
    lemma_decode_be16,
    lemma_decode_be32,
    lemma_decode_be64,
    lemma_decode_enum,
    lemma_decode_enum8,
    lemma_decode_string,
    lemma_decode_nested,
}

/// Writes a field of one byte, if it is present.
pub fn write_u8_field(buf: &mut Vec<u8>, code: u16, v: Option<u8>)
    ensures
        final(buf)@ == old(buf)@ + field_bytes(u8_field(code, v)),
        field_fits(u8_field(code, v)),
{
    match v {
        None => {
            assert(buf@ + Seq::<u8>::empty() =~= buf@);
        },
        Some(x) => {
            let mut p: Vec<u8> = Vec::new();
            p.push(x);
            assert(p@ =~= seq![x]);
            let r = write_attribute(buf, code, p.as_slice());
        },
    }
}

/// Writes a field of a 16-bit number, if it is present.
pub fn write_be16_field(buf: &mut Vec<u8>, code: u16, v: Option<u16>)
    ensures
        final(buf)@ == old(buf)@ + field_bytes(be16_field(code, v)),
        field_fits(be16_field(code, v)),
{
    match v {
        None => {
            assert(buf@ + Seq::<u8>::empty() =~= buf@);
        },
        Some(x) => {
            let mut p: Vec<u8> = Vec::new();
            push_be16(&mut p, x);
            assert(p@ =~= be16(x));
            let r = write_attribute(buf, code, p.as_slice());
        },
    }
}

/// Writes a field of a 32-bit number, if it is present.
pub fn write_be32_field(buf: &mut Vec<u8>, code: u16, v: Option<u32>)
    ensures
        final(buf)@ == old(buf)@ + field_bytes(be32_field(code, v)),
        field_fits(be32_field(code, v)),
{
    match v {
        None => {
            assert(buf@ + Seq::<u8>::empty() =~= buf@);
        },
        Some(x) => {
            let mut p: Vec<u8> = Vec::new();
            push_be32(&mut p, x);
            assert(p@ =~= be32(x));
            let r = write_attribute(buf, code, p.as_slice());
        },
    }
}

/// Writes a field of a 64-bit number, if it is present.
pub fn write_be64_field(buf: &mut Vec<u8>, code: u16, v: Option<u64>)
    ensures
        final(buf)@ == old(buf)@ + field_bytes(be64_field(code, v)),
        field_fits(be64_field(code, v)),
{
    match v {
        None => {
            assert(buf@ + Seq::<u8>::empty() =~= buf@);
        },
        Some(x) => {
            let mut p: Vec<u8> = Vec::new();
            push_be64(&mut p, x);
            assert(p@ =~= be64(x));
            let r = write_attribute(buf, code, p.as_slice());
        },
    }
}

/// Writes a field of an enumeration, if it is present.
pub fn write_enum_field<E: WireEnum>(buf: &mut Vec<u8>, code: u16, v: Option<E>)
    ensures
        final(buf)@ == old(buf)@ + field_bytes(enum_field(code, v)),
        field_fits(enum_field(code, v)),
{
    match v {
        None => {
            assert(buf@ + Seq::<u8>::empty() =~= buf@);
        },
        Some(x) => {
            let mut p: Vec<u8> = Vec::new();
            push_be32(&mut p, x.to_code());
            assert(p@ =~= be32(x.code()));
            let r = write_attribute(buf, code, p.as_slice());
        },
    }
}

/// Writes a one-byte field of an enumeration, if it is present.
pub fn write_enum8_field<E: WireEnum>(buf: &mut Vec<u8>, code: u16, v: Option<E>)
    ensures
        final(buf)@ == old(buf)@ + field_bytes(enum8_field(code, v)),
        field_fits(enum8_field(code, v)),
{
    match v {
        None => {
            assert(buf@ + Seq::<u8>::empty() =~= buf@);
        },
        Some(x) => {
            let mut p: Vec<u8> = Vec::new();
            p.push(x.to_code() as u8);
            assert(p@ =~= seq![x.code() as u8]);
            let r = write_attribute(buf, code, p.as_slice());
        },
    }
}

/// Writes a field of raw bytes, if it is present. Fails exactly when it is
/// present and too long.
pub fn write_bytes_field(buf: &mut Vec<u8>, code: u16, v: &Option<Vec<u8>>) -> (r: Result<
    (),
    BuilderError,
>)
    ensures
        r is Ok <==> field_fits(bytes_field(code, opt_model(*v))),
        r is Ok ==> final(buf)@ == old(buf)@ + field_bytes(bytes_field(code, opt_model(*v))),
        r is Err ==> r == Err::<(), BuilderError>(BuilderError::AttributeTooLarge),
{
    match v {
        None => {
            assert(buf@ + Seq::<u8>::empty() =~= buf@);
            Ok(())
        },
        Some(x) => write_attribute(buf, code, x.as_slice()),
    }
}

/// Writes a field of text, if it is present. Fails exactly when it is
/// present and too long.
pub fn write_string_field(buf: &mut Vec<u8>, code: u16, v: &Option<String>) -> (r: Result<
    (),
    BuilderError,
>)
    ensures
        r is Ok <==> field_fits(string_field(code, opt_model(*v))),
        r is Ok ==> final(buf)@ == old(buf)@ + field_bytes(string_field(code, opt_model(*v))),
        r is Err ==> r == Err::<(), BuilderError>(BuilderError::AttributeTooLarge),
{
    match v {
        None => {
            assert(buf@ + Seq::<u8>::empty() =~= buf@);
            Ok(())
        },
        Some(x) => {
            let mut p: Vec<u8> = Vec::new();
            p.extend_from_slice(x.as_str().as_bytes());
            p.push(0u8);
            assert(p@ =~= c_string(x@));
            write_attribute(buf, code, p.as_slice())
        },
    }
}

/// Writes a field that holds an object, if it is present: reserves the
/// header, lets the object write its attributes, then patches the length
/// into the header. Fails exactly when the object's encoding is too long for
/// one attribute.
pub fn write_nested_field<T: NfNetlinkAttribute>(
    buf: &mut Vec<u8>,
    code: u16,
    v: &Option<T>,
) -> (r: Result<(), BuilderError>)
    ensures
        r is Ok <==> field_fits(nested_field(code, model_fields::<T>(opt_model(*v)))),
        r is Ok ==> final(buf)@ == old(buf)@ + field_bytes(
            nested_field(code, model_fields::<T>(opt_model(*v))),
        ),
        r is Err ==> r == Err::<(), BuilderError>(BuilderError::AttributeTooLarge),
{
    match v {
        None => {
            assert(buf@ + Seq::<u8>::empty() =~= buf@);
            Ok(())
        },
        Some(o) => write_nested(buf, code, o),
    }
}

/// Writes an object as one nested attribute: reserves the header, lets the
/// object write its attributes, then patches the length into the header.
/// Fails exactly when the object's encoding is too long for one attribute.
pub fn write_nested<T: NfNetlinkAttribute>(buf: &mut Vec<u8>, code: u16, o: &T) -> (r: Result<
    (),
    BuilderError,
>)
    ensures
        r is Ok <==> attr_fits(fields_wire(T::fields(o@))),
        r is Ok ==> final(buf)@ == old(buf)@ + attr_bytes(
            nested_type(code),
            fields_wire(T::fields(o@)),
        ),
        r is Err ==> r == Err::<(), BuilderError>(BuilderError::AttributeTooLarge),
{
    let ghost wire = fields_wire(T::fields(o@));
    let start = begin_nested(buf, code);
    match o.write_payload(buf) {
        Err(e) => {
            proof {
                lemma_unfit_is_long(T::fields(o@), 0);
            }
            Err(e)
        },
        Ok(()) => {
            let ghost mid = buf@;
            proof {
                lemma_le16_roundtrip(nested_type(code));
                assert(mid.subrange(start + 2, start + 4) =~= le16(nested_type(code)));
                assert(mid.subrange(start + 4, mid.len() as int) =~= wire);
                assert(mid.subrange(0, start as int) =~= old(buf)@);
            }
            end_nested(buf, start)
        },
    }
}

/// Reads a field of an enumeration.
pub fn read_enum<E: WireEnum>(payload: &[u8]) -> (r: Result<E, DecodeError>)
    ensures
        r == decode_enum::<E>(payload@),
{
    match read_be32(payload) {
        Err(e) => Err(e),
        Ok(c) => match E::from_code(c) {
            None => Err(DecodeError::UnknownDiscriminant(c)),
            Some(x) => Ok(x),
        },
    }
}

/// Reads a one-byte field of an enumeration.
pub fn read_enum8<E: WireEnum>(payload: &[u8]) -> (r: Result<E, DecodeError>)
    ensures
        r == decode_enum8::<E>(payload@),
{
    match read_u8(payload) {
        Err(e) => Err(e),
        Ok(c) => match E::from_code(c as u32) {
            None => Err(DecodeError::UnknownDiscriminant(c as u32)),
            Some(x) => Ok(x),
        },
    }
}

/// Reads a field of raw bytes.
pub fn read_bytes(payload: &[u8]) -> (r: Vec<u8>)
    ensures
        r@ == payload@,
{
    let mut v: Vec<u8> = Vec::new();
    v.extend_from_slice(payload);
    v
}

/// Whether two byte strings are equal.
pub fn bytes_eq(x: &[u8], y: &[u8]) -> (r: bool)
    ensures
        r == (x@ == y@),
{
    if x.len() != y.len() {
        return false;
    }
    let mut i: usize = 0;
    while i < x.len()
        invariant
            i <= x.len(),
            x.len() == y.len(),
            x@.subrange(0, i as int) == y@.subrange(0, i as int),
        decreases x.len() - i,
    {
        if x[i] != y[i] {
            return false;
        }
        assert(x@.subrange(0, i + 1) =~= x@.subrange(0, i as int).push(x@[i as int]));
        assert(y@.subrange(0, i + 1) =~= y@.subrange(0, i as int).push(y@[i as int]));
        i += 1;
    }
    assert(x@ =~= x@.subrange(0, i as int));
    assert(y@ =~= y@.subrange(0, i as int));
    true
}

/// Whether two texts are equal.
pub fn str_eq(a: &str, b: &str) -> (r: bool)
    ensures
        r == (a@ == b@),
{
    let r = bytes_eq(a.as_bytes(), b.as_bytes());
    proof {
        encode_utf8_decode_utf8(a@);
        encode_utf8_decode_utf8(b@);
    }
    r
}

/// Whether two optional byte strings are the same.
pub fn opt_bytes_eq(a: &Option<Vec<u8>>, b: &Option<Vec<u8>>) -> (r: bool)
    ensures
        r == (opt_model(*a) == opt_model(*b)),
{
    match (a, b) {
        (None, None) => true,
        (Some(x), Some(y)) => bytes_eq(x.as_slice(), y.as_slice()),
        _ => false,
    }
}

/// Whether two optional texts are the same.
pub fn opt_string_eq(a: &Option<String>, b: &Option<String>) -> (r: bool)
    ensures
        r == (opt_model(*a) == opt_model(*b)),
{
    match (a, b) {
        (None, None) => true,
        (Some(x), Some(y)) => str_eq(x.as_str(), y.as_str()),
        _ => false,
    }
}

/// Whether two optional objects are the same.
pub fn opt_object_eq<T: NfNetlinkAttribute>(a: &Option<T>, b: &Option<T>) -> (r: bool)
    ensures
        r == (opt_model(*a) == opt_model(*b)),
{
    match (a, b) {
        (None, None) => true,
        (Some(x), Some(y)) => x.equals(y),
        _ => false,
    }
}

/// Converts bytes to text with `String::from_utf8` of the standard library.
/// Not verified: the standard library says that the text is returned exactly
/// when the bytes are valid UTF-8, and that the text then consists of those
/// very bytes.
#[verifier::external_body]
fn string_from_utf8(bytes: &[u8]) -> (r: Option<String>)
    ensures
        r is Some <==> valid_utf8(bytes@),
        r is Some ==> encode_utf8(r.unwrap()@) == bytes@,
{
    String::from_utf8(bytes.to_vec()).ok()
}

/// Reads a field of text: drops the terminating zero byte, if there is one,
/// and checks that the rest is valid UTF-8.
pub fn read_string(payload: &[u8]) -> (r: Result<String, DecodeError>)
    ensures
        match r {
            Ok(s) => decode_string(payload@) == Ok::<Seq<char>, DecodeError>(s@),
            Err(e) => decode_string(payload@) == Err::<Seq<char>, DecodeError>(e),
        },
{
    let n = payload.len();
    let text = if n > 0 && payload[n - 1] == 0 {
        slice_subrange(payload, 0, n - 1)
    } else {
        payload
    };
    assert(text@ =~= strip_nul(payload@));
    match string_from_utf8(text) {
        Some(s) => {
            proof {
                encode_utf8_decode_utf8(s@);
            }
            Ok(s)
        },
        None => Err(DecodeError::InvalidUtf8),
    }
}

} // verus!
