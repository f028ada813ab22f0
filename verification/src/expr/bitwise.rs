//! The bitwise expression: masks and flips the bits of a register.

use vstd::prelude::*;
use crate::attr::lemma_nested_type_code;
use crate::bytes::{be32, decode_be32, read_be32};
use crate::data::{NfNetlinkData, NfNetlinkDataModel};
use crate::error::{BuilderError, DecodeError};
use crate::expr::kind::{Expression, ExpressionKind};
use crate::expr::raw::{ExpressionData, ExpressionDataModel};
use crate::expr::register::Register;
use crate::field::{
    WireEnum, be32_field, decode_enum, enum_field, lemma_decode_be32, lemma_decode_enum,
    lemma_decode_nested, model_fields, nested_field, opt_model, opt_object_eq, read_enum,
    write_be32_field, write_enum_field, write_nested_field,
};
use crate::schema::{
    Fields, Lossless, NfNetlinkAttribute, apply_from, decode_model, deserialize, fields_wire,
    fit_upto, lemma_apply_step, lemma_decode_fields, lemma_fit_each, lemma_fit_upto,
    lemma_unfit_at, lemma_wire_split, wire_upto,
};
use crate::sys::{
    NFTA_BITWISE_DREG, NFTA_BITWISE_LEN, NFTA_BITWISE_MASK, NFTA_BITWISE_SREG, NFTA_BITWISE_XOR,
};

verus! {

/// Replaces the value of a register by `(value & mask) ^ xor`.
#[derive(Clone, Debug, PartialEq, Eq, Hash)]
pub struct Bitwise {
    /// The register that the value is read from.
    pub sreg: Option<Register>,
    /// The register that the result is written to.
    pub dreg: Option<Register>,
    /// Number of bytes of the value.
    pub len: Option<u32>,
    /// The mask.
    pub mask: Option<NfNetlinkData>,
    /// The bytes that the masked value is xor-ed with.
    pub xor: Option<NfNetlinkData>,
}

/// What a [`Bitwise`] holds, as plain values.
pub struct BitwiseModel {
    pub sreg: Option<Register>,
    pub dreg: Option<Register>,
    pub len: Option<u32>,
    pub mask: Option<NfNetlinkDataModel>,
    pub xor: Option<NfNetlinkDataModel>,
}

impl View for Bitwise {
    type V = BitwiseModel;

    open spec fn view(&self) -> BitwiseModel {
        BitwiseModel {
            sreg: self.sreg,
            dreg: self.dreg,
            len: self.len,
            mask: opt_model(self.mask),
            xor: opt_model(self.xor),
        }
    }
}

impl Bitwise {
    /// The expression that masks the first data register in place. Mask and
    /// xor operand must have the same length, which must fit 32 bits; else there
    /// is no such expression.
    pub fn new(mask: Vec<u8>, xor: Vec<u8>) -> (r: Option<Self>)
        ensures
            r is Some <==> mask@.len() == xor@.len() && mask@.len() <= u32::MAX,
            r is Some ==> r.unwrap()@ == (BitwiseModel {
                sreg: Some(Register::Reg1),
                dreg: Some(Register::Reg1),
                len: Some(mask@.len() as u32),
                mask: Some(NfNetlinkDataModel { value: Some(mask@), verdict: None }),
                xor: Some(NfNetlinkDataModel { value: Some(xor@), verdict: None }),
            }),
    {
        let n = mask.len();
        if n != xor.len() || n > u32::MAX as usize {
            return None;
        }
        Some(
            Bitwise {
                sreg: Some(Register::Reg1),
                dreg: Some(Register::Reg1),
                len: Some(n as u32),
                mask: Some(NfNetlinkData::from_value(mask)),
                xor: Some(NfNetlinkData::from_value(xor)),
            },
        )
    }

    /// The same object with this field set: the register that the value is read
    /// from.
    pub fn with_sreg(self, v: Register) -> (r: Self)
        ensures
            r@ == (BitwiseModel { sreg: Some(v), ..self@ }),
    {
        Bitwise { sreg: Some(v), ..self }
    }

    /// Sets this field: the register that the value is read from.
    pub fn set_sreg(&mut self, v: Register)
        ensures
            final(self)@ == (BitwiseModel { sreg: Some(v), ..old(self)@ }),
    {
        self.sreg = Some(v);
    }

    /// This field, if it is present: the register that the value is read from.
    pub fn get_sreg(&self) -> (r: Option<&Register>)
        ensures
            r is Some <==> self.sreg is Some,
            r is Some ==> *r.unwrap() == self.sreg.unwrap(),
    {
        self.sreg.as_ref()
    }

    /// The same object with this field set: the register that the result is
    /// written to.
    pub fn with_dreg(self, v: Register) -> (r: Self)
        ensures
            r@ == (BitwiseModel { dreg: Some(v), ..self@ }),
    {
        Bitwise { dreg: Some(v), ..self }
    }

    /// Sets this field: the register that the result is written to.
    pub fn set_dreg(&mut self, v: Register)
        ensures
            final(self)@ == (BitwiseModel { dreg: Some(v), ..old(self)@ }),
    {
        self.dreg = Some(v);
    }

    /// This field, if it is present: the register that the result is written to.
    pub fn get_dreg(&self) -> (r: Option<&Register>)
        ensures
            r is Some <==> self.dreg is Some,
            r is Some ==> *r.unwrap() == self.dreg.unwrap(),
    {
        self.dreg.as_ref()
    }

    /// The same object with this field set: number of bytes of the value.
    pub fn with_len(self, v: u32) -> (r: Self)
        ensures
            r@ == (BitwiseModel { len: Some(v), ..self@ }),
    {
        Bitwise { len: Some(v), ..self }
    }

    /// Sets this field: number of bytes of the value.
    pub fn set_len(&mut self, v: u32)
        ensures
            final(self)@ == (BitwiseModel { len: Some(v), ..old(self)@ }),
    {
        self.len = Some(v);
    }

    /// This field, if it is present: number of bytes of the value.
    pub fn get_len(&self) -> (r: Option<&u32>)
        ensures
            r is Some <==> self.len is Some,
            r is Some ==> *r.unwrap() == self.len.unwrap(),
    {
        self.len.as_ref()
    }

    /// The same object with this field set: the mask.
    pub fn with_mask(self, v: NfNetlinkData) -> (r: Self)
        ensures
            r@ == (BitwiseModel { mask: Some(v@), ..self@ }),
    {
        Bitwise { mask: Some(v), ..self }
    }

    /// Sets this field: the mask.
    pub fn set_mask(&mut self, v: NfNetlinkData)
        ensures
            final(self)@ == (BitwiseModel { mask: Some(v@), ..old(self)@ }),
    {
        self.mask = Some(v);
    }

    /// This field, if it is present: the mask.
    pub fn get_mask(&self) -> (r: Option<&NfNetlinkData>)
        ensures
            r is Some <==> self.mask is Some,
            r is Some ==> *r.unwrap() == self.mask.unwrap(),
    {
        self.mask.as_ref()
    }

    /// The same object with this field set: the bytes that the masked value is
    /// xor-ed with.
    pub fn with_xor(self, v: NfNetlinkData) -> (r: Self)
        ensures
            r@ == (BitwiseModel { xor: Some(v@), ..self@ }),
    {
        Bitwise { xor: Some(v), ..self }
    }

    /// Sets this field: the bytes that the masked value is xor-ed with.
    pub fn set_xor(&mut self, v: NfNetlinkData)
        ensures
            final(self)@ == (BitwiseModel { xor: Some(v@), ..old(self)@ }),
    {
        self.xor = Some(v);
    }

    /// This field, if it is present: the bytes that the masked value is xor-ed
    /// with.
    pub fn get_xor(&self) -> (r: Option<&NfNetlinkData>)
        ensures
            r is Some <==> self.xor is Some,
            r is Some ==> *r.unwrap() == self.xor.unwrap(),
    {
        self.xor.as_ref()
    }
}

impl Default for Bitwise {
    fn default() -> (r: Self)
        ensures
            r@ == <Bitwise as NfNetlinkAttribute>::empty_model(),
    {
        <Bitwise as NfNetlinkAttribute>::empty()
    }
}

impl NfNetlinkAttribute for Bitwise {
    open spec fn fields(m: BitwiseModel) -> Fields {
        seq![
            enum_field(NFTA_BITWISE_SREG, m.sreg),
            enum_field(NFTA_BITWISE_DREG, m.dreg),
            be32_field(NFTA_BITWISE_LEN, m.len),
            nested_field(NFTA_BITWISE_MASK, model_fields::<NfNetlinkData>(m.mask)),
            nested_field(NFTA_BITWISE_XOR, model_fields::<NfNetlinkData>(m.xor)),
        ]
    }

    open spec fn empty_model() -> BitwiseModel {
        BitwiseModel { sreg: None, dreg: None, len: None, mask: None, xor: None }
    }

    open spec fn apply_model(m: BitwiseModel, code: u16, payload: Seq<u8>) -> Result<
        BitwiseModel,
        DecodeError,
    > {
        if code == NFTA_BITWISE_SREG {
            match decode_enum::<Register>(payload) {
                Err(e) => Err(e),
                Ok(v) => Ok(BitwiseModel { sreg: Some(v), ..m }),
            }
        } else if code == NFTA_BITWISE_DREG {
            match decode_enum::<Register>(payload) {
                Err(e) => Err(e),
                Ok(v) => Ok(BitwiseModel { dreg: Some(v), ..m }),
            }
        } else if code == NFTA_BITWISE_LEN {
            match decode_be32(payload) {
                Err(e) => Err(e),
                Ok(v) => Ok(BitwiseModel { len: Some(v), ..m }),
            }
        } else if code == NFTA_BITWISE_MASK {
            match decode_model::<NfNetlinkData>(payload) {
                Err(e) => Err(e),
                Ok(v) => Ok(BitwiseModel { mask: Some(v), ..m }),
            }
        } else if code == NFTA_BITWISE_XOR {
            match decode_model::<NfNetlinkData>(payload) {
                Err(e) => Err(e),
                Ok(v) => Ok(BitwiseModel { xor: Some(v), ..m }),
            }
        } else {
            Ok(m)
        }
    }

    fn empty() -> (r: Self) {
        Bitwise { sreg: None, dreg: None, len: None, mask: None, xor: None }
    }

    fn write_payload(&self, buf: &mut Vec<u8>) -> (r: Result<(), BuilderError>) {
        let ghost fields = Self::fields(self@);
        proof {
            lemma_wire_split(fields, 5);
            assert(buf@ + wire_upto(fields, 0) =~= buf@);
            assert(fit_upto(fields, 0));
        }
        write_enum_field(buf, NFTA_BITWISE_SREG, self.sreg);
        assert(buf@ == old(buf)@ + wire_upto(fields, 1) && fit_upto(fields, 1));
        write_enum_field(buf, NFTA_BITWISE_DREG, self.dreg);
        assert(buf@ == old(buf)@ + wire_upto(fields, 2) && fit_upto(fields, 2));
        write_be32_field(buf, NFTA_BITWISE_LEN, self.len);
        assert(buf@ == old(buf)@ + wire_upto(fields, 3) && fit_upto(fields, 3));
        match write_nested_field(buf, NFTA_BITWISE_MASK, &self.mask) {
            Err(e) => {
                proof {
                    lemma_unfit_at(fields, 0, 3);
                }
                return Err(e);
            },
            Ok(()) => {},
        }
        assert(buf@ == old(buf)@ + wire_upto(fields, 4) && fit_upto(fields, 4));
        match write_nested_field(buf, NFTA_BITWISE_XOR, &self.xor) {
            Err(e) => {
                proof {
                    lemma_unfit_at(fields, 0, 4);
                }
                return Err(e);
            },
            Ok(()) => {},
        }
        assert(buf@ == old(buf)@ + wire_upto(fields, 5) && fit_upto(fields, 5));
        proof {
            lemma_fit_upto(fields, 5);
        }
        Ok(())
    }

    fn equals(&self, other: &Self) -> (b: bool) {
        let same_sreg = match (self.sreg, other.sreg) {
            (None, None) => true,
            (Some(x), Some(y)) => x == y,
            _ => false,
        };
        let same_dreg = match (self.dreg, other.dreg) {
            (None, None) => true,
            (Some(x), Some(y)) => x == y,
            _ => false,
        };
        let same_len = match (self.len, other.len) {
            (None, None) => true,
            (Some(x), Some(y)) => x == y,
            _ => false,
        };
        same_sreg
            && same_dreg
            && same_len
            && opt_object_eq(&self.mask, &other.mask)
            && opt_object_eq(&self.xor, &other.xor)
    }

    fn decode_attribute(self, code: u16, payload: &[u8]) -> (r: Result<Self, DecodeError>) {
        if code == NFTA_BITWISE_SREG {
            let v = read_enum::<Register>(payload)?;
            Ok(Bitwise { sreg: Some(v), ..self })
        } else if code == NFTA_BITWISE_DREG {
            let v = read_enum::<Register>(payload)?;
            Ok(Bitwise { dreg: Some(v), ..self })
        } else if code == NFTA_BITWISE_LEN {
            let v = read_be32(payload)?;
            Ok(Bitwise { len: Some(v), ..self })
        } else if code == NFTA_BITWISE_MASK {
            let v = deserialize::<NfNetlinkData>(payload)?;
            Ok(Bitwise { mask: Some(v), ..self })
        } else if code == NFTA_BITWISE_XOR {
            let v = deserialize::<NfNetlinkData>(payload)?;
            Ok(Bitwise { xor: Some(v), ..self })
        } else {
            Ok(self)
        }
    }
}

impl Lossless for Bitwise {
    open spec fn valid(m: BitwiseModel) -> bool {
        &&& m.mask is Some ==> NfNetlinkData::valid(m.mask.unwrap())
        &&& m.xor is Some ==> NfNetlinkData::valid(m.xor.unwrap())
    }

    proof fn lemma_roundtrip(m: BitwiseModel) {
        let fields = Self::fields(m);
        let s0 = Self::empty_model();
        lemma_decode_fields::<Self>(s0, fields, 0);
        let s1 = BitwiseModel { sreg: m.sreg, ..s0 };
        assert(apply_from::<Self>(s0, fields, 0) == apply_from::<Self>(
            s1,
            fields,
            1,
        )) by {
            if m.sreg is Some {
                let payload = be32(m.sreg.unwrap().code());
                lemma_decode_enum::<Register>(m.sreg.unwrap());
                assert(Self::apply_model(s0, NFTA_BITWISE_SREG, payload) == Ok::<
                    BitwiseModel,
                    DecodeError,
                >(s1));
            }
            lemma_apply_step::<Self>(s0, s1, fields, 0);
        }
        let s2 = BitwiseModel { dreg: m.dreg, ..s1 };
        assert(apply_from::<Self>(s1, fields, 1) == apply_from::<Self>(
            s2,
            fields,
            2,
        )) by {
            if m.dreg is Some {
                let payload = be32(m.dreg.unwrap().code());
                lemma_decode_enum::<Register>(m.dreg.unwrap());
                assert(Self::apply_model(s1, NFTA_BITWISE_DREG, payload) == Ok::<
                    BitwiseModel,
                    DecodeError,
                >(s2));
            }
            lemma_apply_step::<Self>(s1, s2, fields, 1);
        }
        let s3 = BitwiseModel { len: m.len, ..s2 };
        assert(apply_from::<Self>(s2, fields, 2) == apply_from::<Self>(
            s3,
            fields,
            3,
        )) by {
            if m.len is Some {
                let payload = be32(m.len.unwrap());
                lemma_decode_be32(m.len.unwrap());
                assert(Self::apply_model(s2, NFTA_BITWISE_LEN, payload) == Ok::<
                    BitwiseModel,
                    DecodeError,
                >(s3));
            }
            lemma_apply_step::<Self>(s2, s3, fields, 2);
        }
        let s4 = BitwiseModel { mask: m.mask, ..s3 };
        assert(apply_from::<Self>(s3, fields, 3) == apply_from::<Self>(
            s4,
            fields,
            4,
        )) by {
            if m.mask is Some {
                let payload = fields_wire(NfNetlinkData::fields(m.mask.unwrap()));
                lemma_fit_each(fields, 0, 3);
                lemma_nested_type_code(NFTA_BITWISE_MASK);
                lemma_decode_nested::<NfNetlinkData>(m.mask.unwrap());
                assert(Self::apply_model(s3, NFTA_BITWISE_MASK, payload) == Ok::<
                    BitwiseModel,
                    DecodeError,
                >(s4));
            }
            lemma_apply_step::<Self>(s3, s4, fields, 3);
        }
        let s5 = BitwiseModel { xor: m.xor, ..s4 };
        assert(apply_from::<Self>(s4, fields, 4) == apply_from::<Self>(
            s5,
            fields,
            5,
        )) by {
            if m.xor is Some {
                let payload = fields_wire(NfNetlinkData::fields(m.xor.unwrap()));
                lemma_fit_each(fields, 0, 4);
                lemma_nested_type_code(NFTA_BITWISE_XOR);
                lemma_decode_nested::<NfNetlinkData>(m.xor.unwrap());
                assert(Self::apply_model(s4, NFTA_BITWISE_XOR, payload) == Ok::<
                    BitwiseModel,
                    DecodeError,
                >(s5));
            }
            lemma_apply_step::<Self>(s4, s5, fields, 4);
        }
        assert(s5 == m);
    }
}

impl Expression for Bitwise {
    open spec fn kind() -> ExpressionKind {
        ExpressionKind::Bitwise
    }

    open spec fn wrap(m: BitwiseModel) -> ExpressionDataModel {
        ExpressionDataModel::Bitwise(m)
    }

    fn get_kind() -> (k: ExpressionKind) {
        ExpressionKind::Bitwise
    }

    fn into_data(self) -> (d: ExpressionData) {
        ExpressionData::Bitwise(self)
    }
}

} // verus!
