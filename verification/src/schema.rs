//! The schema layer: what all wire objects have in common.
//!
//! An object is a set of optional fields, each with an attribute code. Its
//! schema is the list of its fields in the order in which they are written,
//! every present field as an attribute and every absent one as nothing.
//! Encoding writes that list; decoding starts from the object without any
//! field and takes in one attribute after the other, skipping the codes that
//! the object does not know.

use vstd::prelude::*;
use crate::attr::{
    attr_bytes, attr_fits, first_attr, lemma_attr_len, lemma_first_attr,
    lemma_first_attr_rest, type_code, AttributeReader,
};
use crate::error::{BuilderError, DecodeError};

verus! {

/// One attribute of a schema: the type field as it is written (code and
/// flags) and the payload.
pub struct Attr {
    pub ty: u16,
    pub payload: Seq<u8>,
}

/// The fields of an object in the order in which they are written; an absent
/// field is `None`.
pub type Fields = Seq<Option<Attr>>;

/// The bytes of one field: its attribute, or nothing when it is absent.
pub open spec fn field_bytes(f: Option<Attr>) -> Seq<u8> {
    match f {
        None => Seq::empty(),
        Some(a) => attr_bytes(a.ty, a.payload),
    }
}

/// Whether one field can be written: it is absent, or its payload fits.
pub open spec fn field_fits(f: Option<Attr>) -> bool {
    match f {
        None => true,
        Some(a) => attr_fits(a.payload),
    }
}

/// The bytes of the fields from the `i`-th on.
pub open spec fn wire_from(fields: Fields, i: int) -> Seq<u8>
    decreases fields.len() - i,
{
    if i < 0 || i >= fields.len() {
        Seq::empty()
    } else {
        field_bytes(fields[i]) + wire_from(fields, i + 1)
    }
}

/// The bytes of the first `k` fields.
pub open spec fn wire_upto(fields: Fields, k: int) -> Seq<u8>
    decreases k,
{
    if k <= 0 || k > fields.len() {
        Seq::empty()
    } else {
        wire_upto(fields, k - 1) + field_bytes(fields[k - 1])
    }
}

/// Whether the first `k` fields can all be written.
pub open spec fn fit_upto(fields: Fields, k: int) -> bool
    decreases k,
{
    if k <= 0 || k > fields.len() {
        true
    } else {
        fit_upto(fields, k - 1) && field_fits(fields[k - 1])
    }
}

/// The attribute stream of an object with these fields.
pub open spec fn fields_wire(fields: Fields) -> Seq<u8> {
    wire_from(fields, 0)
}

/// Whether the fields from the `i`-th on can all be written.
pub open spec fn fit_from(fields: Fields, i: int) -> bool
    decreases fields.len() - i,
{
    if i < 0 || i >= fields.len() {
        true
    } else {
        field_fits(fields[i]) && fit_from(fields, i + 1)
    }
}

/// Whether an object with these fields can be written: every payload is
/// short enough for its length field.
pub open spec fn fields_fit(fields: Fields) -> bool {
    fit_from(fields, 0)
}

/// A wire object: a set of optional fields with a schema.
///
/// `V` is the object's model, the value that contracts speak of.
pub trait NfNetlinkAttribute: View + Sized {
    /// The schema: the object's fields in the order in which they are written.
    spec fn fields(m: Self::V) -> Fields;

    /// The model of the object that has no field.
    spec fn empty_model() -> Self::V;

    /// The object after it has taken in one attribute: the field with that
    /// code is set to what the payload decodes to, an unknown code changes
    /// nothing, and a payload that is not of the field's type is an error.
    spec fn apply_model(m: Self::V, code: u16, payload: Seq<u8>) -> Result<Self::V, DecodeError>;

    /// The object without any field.
    fn empty() -> (r: Self)
        ensures
            r@ == Self::empty_model(),
    ;

    /// Appends the object's attribute stream to `buf`. Fails exactly when a
    /// payload is too long for its length field.
    fn write_payload(&self, buf: &mut Vec<u8>) -> (r: Result<(), BuilderError>)
        ensures
            r is Ok <==> fields_fit(Self::fields(self@)),
            r is Ok ==> final(buf)@ == old(buf)@ + fields_wire(Self::fields(self@)),
            r is Err ==> r == Err::<(), BuilderError>(BuilderError::AttributeTooLarge),
    ;

    /// Whether two objects hold the same: every field is present in both or
    /// absent in both, and where it is present it has the same value.
    fn equals(&self, other: &Self) -> (b: bool)
        ensures
            b == (self@ == other@),
    ;

    /// Takes in one attribute, as [`Self::apply_model`] says.
    fn decode_attribute(self, code: u16, payload: &[u8]) -> (r: Result<Self, DecodeError>)
        ensures
            match r {
                Ok(o) => Self::apply_model(self@, code, payload@) == Ok::<Self::V, DecodeError>(
                    o@,
                ),
                Err(e) => Self::apply_model(self@, code, payload@) == Err::<Self::V, DecodeError>(
                    e,
                ),
            },
    ;
}

/// The object that results when `m` takes in every attribute of the stream
/// `b`, first to last.
#[verifier::opaque]
pub open spec fn decode_from<T: NfNetlinkAttribute>(m: T::V, b: Seq<u8>) -> Result<
    T::V,
    DecodeError,
>
    decreases b.len(),
    via decode_from_decreases::<T>
{
    if b.len() == 0 {
        Ok(m)
    } else {
        match first_attr(b) {
            Err(e) => Err(e),
            Ok(a) => match T::apply_model(m, a.code, a.payload) {
                Err(e) => Err(e),
                Ok(m2) => decode_from::<T>(m2, a.rest),
            },
        }
    }
}

#[via_fn]
proof fn decode_from_decreases<T: NfNetlinkAttribute>(m: T::V, b: Seq<u8>) {
    lemma_first_attr_rest(b);
}

/// The object that an attribute stream decodes to.
pub open spec fn decode_model<T: NfNetlinkAttribute>(b: Seq<u8>) -> Result<T::V, DecodeError> {
    decode_from::<T>(T::empty_model(), b)
}

/// A wire object whose encoding loses nothing.
pub trait Lossless: NfNetlinkAttribute {
    /// What a model must satisfy for decoding to undo encoding.
    spec fn valid(m: Self::V) -> bool;

    /// Decoding what was encoded gives back the object, with every absent
    /// field absent and every present field as it was.
    proof fn lemma_roundtrip(m: Self::V)
        requires
            Self::valid(m),
            fields_fit(Self::fields(m)),
        ensures
            decode_model::<Self>(fields_wire(Self::fields(m))) == Ok::<Self::V, DecodeError>(m),
    ;
}

/// The object that results when `m` takes in the fields from the `i`-th on.
pub open spec fn apply_from<T: NfNetlinkAttribute>(m: T::V, fields: Fields, i: int) -> Result<
    T::V,
    DecodeError,
>
    decreases fields.len() - i,
{
    if i < 0 || i >= fields.len() {
        Ok(m)
    } else {
        match fields[i] {
            None => apply_from::<T>(m, fields, i + 1),
            Some(a) => match T::apply_model(m, type_code(a.ty), a.payload) {
                Err(e) => Err(e),
                Ok(m2) => apply_from::<T>(m2, fields, i + 1),
            },
        }
    }
}

/// Taking in the fields from the `i`-th on is taking in the `i`-th, then
/// the others.
pub proof fn lemma_apply_step<T: NfNetlinkAttribute>(m: T::V, m2: T::V, fields: Fields, i: int)
    requires
        0 <= i < fields.len(),
        fields[i] is None ==> m2 == m,
        fields[i] is Some ==> T::apply_model(
            m,
            type_code(fields[i].unwrap().ty),
            fields[i].unwrap().payload,
        ) == Ok::<T::V, DecodeError>(m2),
    ensures
        apply_from::<T>(m, fields, i) == apply_from::<T>(m2, fields, i + 1),
{
}

/// Decoding a stream that starts with an encoded attribute is taking in
/// that attribute, then decoding the rest. An attribute whose code the object
/// does not know changes nothing, wherever it stands.
pub proof fn lemma_decode_attr<T: NfNetlinkAttribute>(
    m: T::V,
    ty: u16,
    payload: Seq<u8>,
    tail: Seq<u8>,
)
    requires
        attr_fits(payload),
    ensures
        decode_from::<T>(m, attr_bytes(ty, payload) + tail) == (match T::apply_model(
            m,
            type_code(ty),
            payload,
        ) {
            Err(e) => Err(e),
            Ok(m2) => decode_from::<T>(m2, tail),
        }),
        decode_from::<T>(m, Seq::empty()) == Ok::<T::V, DecodeError>(m),
{
    reveal(decode_from);
    lemma_first_attr(ty, payload, tail);
    lemma_attr_len(ty, payload);
}

/// Decoding the bytes of a list of fields is taking in those fields one by
/// one.
pub proof fn lemma_decode_fields<T: NfNetlinkAttribute>(m: T::V, fields: Fields, i: int)
    requires
        0 <= i,
        fit_from(fields, i),
    ensures
        decode_from::<T>(m, wire_from(fields, i)) == apply_from::<T>(m, fields, i),
    decreases fields.len() - i,
{
    reveal(decode_from);
    if i >= fields.len() {
    } else {
        let tail = wire_from(fields, i + 1);
        match fields[i] {
            None => {
                assert(wire_from(fields, i) =~= tail);
                lemma_decode_fields::<T>(m, fields, i + 1);
            },
            Some(a) => {
                lemma_first_attr(a.ty, a.payload, tail);
                lemma_attr_len(a.ty, a.payload);
                match T::apply_model(m, type_code(a.ty), a.payload) {
                    Err(e) => {},
                    Ok(m2) => {
                        lemma_decode_fields::<T>(m2, fields, i + 1);
                    },
                }
            },
        }
    }
}

/// The bytes of a list of fields are those of its first `k` fields, then
/// those of the others.
pub proof fn lemma_wire_split(fields: Fields, k: int)
    requires
        0 <= k <= fields.len(),
    ensures
        fields_wire(fields) == wire_upto(fields, k) + wire_from(fields, k),
        k == fields.len() ==> fields_wire(fields) == wire_upto(fields, k),
    decreases k,
{
    if k == fields.len() {
        if k > 0 {
            lemma_wire_split(fields, k - 1);
            assert(wire_from(fields, k) =~= Seq::<u8>::empty());
            assert(wire_from(fields, k - 1) =~= field_bytes(fields[k - 1]));
        }
        assert(wire_upto(fields, k) + Seq::<u8>::empty() =~= wire_upto(fields, k));
    } else if k == 0 {
        assert(Seq::<u8>::empty() + wire_from(fields, 0) =~= wire_from(fields, 0));
    } else {
        lemma_wire_split(fields, k - 1);
        assert(wire_upto(fields, k - 1) + (field_bytes(fields[k - 1]) + wire_from(fields, k))
            =~= wire_upto(fields, k) + wire_from(fields, k));
    }
}

/// The bytes of a list of fields end at a multiple of four.
pub proof fn lemma_wire_aligned(fields: Fields, i: int)
    requires
        0 <= i,
    ensures
        wire_from(fields, i).len() % 4 == 0,
    decreases fields.len() - i,
{
    if i < fields.len() {
        lemma_wire_aligned(fields, i + 1);
        match fields[i] {
            None => {},
            Some(a) => {
                lemma_attr_len(a.ty, a.payload);
            },
        }
    }
}

/// The bytes of a list of fields are at least as long as any one attribute
/// in it.
pub proof fn lemma_wire_len(fields: Fields, i: int, k: int)
    requires
        0 <= i <= k < fields.len(),
        fields[k] is Some,
    ensures
        wire_from(fields, i).len() >= 4 + fields[k].unwrap().payload.len(),
    decreases k - i,
{
    if i == k {
        lemma_attr_len(fields[k].unwrap().ty, fields[k].unwrap().payload);
    } else {
        lemma_wire_len(fields, i + 1, k);
    }
}

/// A list of fields with one that does not fit is longer than any payload
/// may be.
pub proof fn lemma_unfit_is_long(fields: Fields, i: int)
    requires
        0 <= i,
        !fit_from(fields, i),
    ensures
        !attr_fits(wire_from(fields, i)),
    decreases fields.len() - i,
{
    if i < fields.len() {
        if field_fits(fields[i]) {
            lemma_unfit_is_long(fields, i + 1);
        } else {
            lemma_wire_len(fields, i, i);
        }
    }
}

/// A list of fields with one that does not fit cannot be written.
pub proof fn lemma_unfit_at(fields: Fields, i: int, k: int)
    requires
        0 <= i <= k < fields.len(),
        !field_fits(fields[k]),
    ensures
        !fit_from(fields, i),
    decreases k - i,
{
    if i < k {
        lemma_unfit_at(fields, i + 1, k);
    }
}

/// A list of fields that all fit can be written.
pub proof fn lemma_fit_all(fields: Fields, i: int)
    requires
        0 <= i,
        forall|j: int| i <= j < fields.len() ==> field_fits(#[trigger] fields[j]),
    ensures
        fit_from(fields, i),
    decreases fields.len() - i,
{
    if i < fields.len() {
        lemma_fit_all(fields, i + 1);
    }
}

/// In a list of fields that can be written, every field fits.
pub proof fn lemma_fit_each(fields: Fields, i: int, k: int)
    requires
        0 <= i <= k < fields.len(),
        fit_from(fields, i),
    ensures
        field_fits(fields[k]),
    decreases k - i,
{
    if i < k {
        lemma_fit_each(fields, i + 1, k);
    }
}

/// A list of fields of which the first `k` fit, and the others too, can be
/// written.
pub proof fn lemma_fit_upto(fields: Fields, k: int)
    requires
        0 <= k <= fields.len(),
        fit_upto(fields, k),
        fit_from(fields, k),
    ensures
        fields_fit(fields),
    decreases k,
{
    if k > 0 {
        lemma_fit_upto(fields, k - 1);
    }
}

/// Lets an object take in every attribute of a stream, in order. The
/// first attribute that is malformed, or whose payload is not of its field's
/// type, ends the decoding with its error.
pub fn deserialize_from<T: NfNetlinkAttribute>(init: T, bytes: &[u8]) -> (r: Result<T, DecodeError>)
    ensures
        match r {
            Ok(o) => decode_from::<T>(init@, bytes@) == Ok::<T::V, DecodeError>(o@),
            Err(e) => decode_from::<T>(init@, bytes@) == Err::<T::V, DecodeError>(e),
        },
{
    let mut reader = AttributeReader::new(bytes);
    let mut obj = init;
    loop
        invariant
            decode_from::<T>(obj@, reader.remaining()) == decode_from::<T>(init@, bytes@),
        decreases reader.remaining().len(),
    {
        proof {
            reveal(decode_from);
        }
        match reader.next() {
            Err(e) => {
                return Err(e);
            },
            Ok(None) => {
                return Ok(obj);
            },
            Ok(Some((code, payload))) => {
                match obj.decode_attribute(code, payload) {
                    Err(e) => {
                        return Err(e);
                    },
                    Ok(o) => {
                        obj = o;
                    },
                }
            },
        }
    }
}

/// Decodes an attribute stream into an object: starts from the object
/// without any field and takes in every attribute in order.
pub fn deserialize<T: NfNetlinkAttribute>(bytes: &[u8]) -> (r: Result<T, DecodeError>)
    ensures
        match r {
            Ok(o) => decode_model::<T>(bytes@) == Ok::<T::V, DecodeError>(o@),
            Err(e) => decode_model::<T>(bytes@) == Err::<T::V, DecodeError>(e),
        },
{
    deserialize_from(T::empty(), bytes)
}

/// Encodes an object into a fresh buffer: its attribute stream, or an error
/// when a payload is too long for its length field.
pub fn serialize<T: NfNetlinkAttribute>(obj: &T) -> (r: Result<Vec<u8>, BuilderError>)
    ensures
        r is Ok <==> fields_fit(T::fields(obj@)),
        r is Ok ==> r.unwrap()@ == fields_wire(T::fields(obj@)),
        r is Err ==> r == Err::<Vec<u8>, BuilderError>(BuilderError::AttributeTooLarge),
{
    let mut buf: Vec<u8> = Vec::new();
    match obj.write_payload(&mut buf) {
        Ok(()) => {
            assert(Seq::<u8>::empty() + fields_wire(T::fields(obj@)) =~= fields_wire(
                T::fields(obj@),
            ));
            Ok(buf)
        },
        Err(e) => Err(e),
    }
}

} // verus!
