//! The range expression.

use vstd::prelude::*;
use crate::attr::lemma_nested_type_code;
use crate::bytes::be32;
use crate::data::{NfNetlinkData, NfNetlinkDataModel};
use crate::error::{BuilderError, DecodeError};
use crate::expr::cmp::CmpOp;
use crate::expr::kind::{Expression, ExpressionKind};
use crate::expr::raw::{ExpressionData, ExpressionDataModel};
use crate::expr::register::Register;
use crate::field::{
    WireEnum, decode_enum, enum_field, lemma_decode_enum, lemma_decode_nested, model_fields,
    nested_field, opt_model, opt_object_eq, read_enum, write_enum_field, write_nested_field,
};
use crate::schema::{
    Fields, Lossless, NfNetlinkAttribute, apply_from, decode_model, deserialize, fields_wire,
    fit_upto, lemma_apply_step, lemma_decode_fields, lemma_fit_each, lemma_fit_upto,
    lemma_unfit_at, lemma_wire_split, wire_upto,
};
use crate::sys::{NFTA_RANGE_FROM_DATA, NFTA_RANGE_OP, NFTA_RANGE_SREG, NFTA_RANGE_TO_DATA};

verus! {

/// Compares the value of a register with a range of values. A packet
/// goes on through the rule only if the comparison holds.
#[derive(Clone, Debug, PartialEq, Eq, Hash)]
pub struct Range {
    /// The register whose value is compared.
    pub sreg: Option<Register>,
    /// How the value is compared with the range.
    pub op: Option<CmpOp>,
    /// The lower end of the range.
    pub from: Option<NfNetlinkData>,
    /// The upper end of the range.
    pub to: Option<NfNetlinkData>,
}

/// What a [`Range`] holds, as plain values.
pub struct RangeModel {
    pub sreg: Option<Register>,
    pub op: Option<CmpOp>,
    pub from: Option<NfNetlinkDataModel>,
    pub to: Option<NfNetlinkDataModel>,
}

impl View for Range {
    type V = RangeModel;

    open spec fn view(&self) -> RangeModel {
        RangeModel {
            sreg: self.sreg,
            op: self.op,
            from: opt_model(self.from),
            to: opt_model(self.to),
        }
    }
}

impl Range {
    /// The comparison of the first data register with the range between
    /// `from` and `to`.
    pub fn new(op: CmpOp, from: Vec<u8>, to: Vec<u8>) -> (r: Self)
        ensures
            r@ == (RangeModel {
                sreg: Some(Register::Reg1),
                op: Some(op),
                from: Some(NfNetlinkDataModel { value: Some(from@), verdict: None }),
                to: Some(NfNetlinkDataModel { value: Some(to@), verdict: None }),
            }),
    {
        Range {
            sreg: Some(Register::Reg1),
            op: Some(op),
            from: Some(NfNetlinkData::from_value(from)),
            to: Some(NfNetlinkData::from_value(to)),
        }
    }

    /// The same object with this field set: the register whose value is compared.
    pub fn with_sreg(self, v: Register) -> (r: Self)
        ensures
            r@ == (RangeModel { sreg: Some(v), ..self@ }),
    {
        Range { sreg: Some(v), ..self }
    }

    /// Sets this field: the register whose value is compared.
    pub fn set_sreg(&mut self, v: Register)
        ensures
            final(self)@ == (RangeModel { sreg: Some(v), ..old(self)@ }),
    {
        self.sreg = Some(v);
    }

    /// This field, if it is present: the register whose value is compared.
    pub fn get_sreg(&self) -> (r: Option<&Register>)
        ensures
            r is Some <==> self.sreg is Some,
            r is Some ==> *r.unwrap() == self.sreg.unwrap(),
    {
        self.sreg.as_ref()
    }

    /// The same object with this field set: how the value is compared with the
    /// range.
    pub fn with_op(self, v: CmpOp) -> (r: Self)
        ensures
            r@ == (RangeModel { op: Some(v), ..self@ }),
    {
        Range { op: Some(v), ..self }
    }

    /// Sets this field: how the value is compared with the range.
    pub fn set_op(&mut self, v: CmpOp)
        ensures
            final(self)@ == (RangeModel { op: Some(v), ..old(self)@ }),
    {
        self.op = Some(v);
    }

    /// This field, if it is present: how the value is compared with the range.
    pub fn get_op(&self) -> (r: Option<&CmpOp>)
        ensures
            r is Some <==> self.op is Some,
            r is Some ==> *r.unwrap() == self.op.unwrap(),
    {
        self.op.as_ref()
    }

    /// The same object with this field set: the lower end of the range.
    pub fn with_from(self, v: NfNetlinkData) -> (r: Self)
        ensures
            r@ == (RangeModel { from: Some(v@), ..self@ }),
    {
        Range { from: Some(v), ..self }
    }

    /// Sets this field: the lower end of the range.
    pub fn set_from(&mut self, v: NfNetlinkData)
        ensures
            final(self)@ == (RangeModel { from: Some(v@), ..old(self)@ }),
    {
        self.from = Some(v);
    }

    /// This field, if it is present: the lower end of the range.
    pub fn get_from(&self) -> (r: Option<&NfNetlinkData>)
        ensures
            r is Some <==> self.from is Some,
            r is Some ==> *r.unwrap() == self.from.unwrap(),
    {
        self.from.as_ref()
    }

    /// The same object with this field set: the upper end of the range.
    pub fn with_to(self, v: NfNetlinkData) -> (r: Self)
        ensures
            r@ == (RangeModel { to: Some(v@), ..self@ }),
    {
        Range { to: Some(v), ..self }
    }

    /// Sets this field: the upper end of the range.
    pub fn set_to(&mut self, v: NfNetlinkData)
        ensures
            final(self)@ == (RangeModel { to: Some(v@), ..old(self)@ }),
    {
        self.to = Some(v);
    }

    /// This field, if it is present: the upper end of the range.
    pub fn get_to(&self) -> (r: Option<&NfNetlinkData>)
        ensures
            r is Some <==> self.to is Some,
            r is Some ==> *r.unwrap() == self.to.unwrap(),
    {
        self.to.as_ref()
    }
}

impl Default for Range {
    fn default() -> (r: Self)
        ensures
            r@ == <Range as NfNetlinkAttribute>::empty_model(),
    {
        <Range as NfNetlinkAttribute>::empty()
    }
}

impl NfNetlinkAttribute for Range {
    open spec fn fields(m: RangeModel) -> Fields {
        seq![
            enum_field(NFTA_RANGE_SREG, m.sreg),
            enum_field(NFTA_RANGE_OP, m.op),
            nested_field(NFTA_RANGE_FROM_DATA, model_fields::<NfNetlinkData>(m.from)),
            nested_field(NFTA_RANGE_TO_DATA, model_fields::<NfNetlinkData>(m.to)),
        ]
    }

    open spec fn empty_model() -> RangeModel {
        RangeModel { sreg: None, op: None, from: None, to: None }
    }

    open spec fn apply_model(m: RangeModel, code: u16, payload: Seq<u8>) -> Result<
        RangeModel,
        DecodeError,
    > {
        if code == NFTA_RANGE_SREG {
            match decode_enum::<Register>(payload) {
                Err(e) => Err(e),
                Ok(v) => Ok(RangeModel { sreg: Some(v), ..m }),
            }
        } else if code == NFTA_RANGE_OP {
            match decode_enum::<CmpOp>(payload) {
                Err(e) => Err(e),
                Ok(v) => Ok(RangeModel { op: Some(v), ..m }),
            }
        } else if code == NFTA_RANGE_FROM_DATA {
            match decode_model::<NfNetlinkData>(payload) {
                Err(e) => Err(e),
                Ok(v) => Ok(RangeModel { from: Some(v), ..m }),
            }
        } else if code == NFTA_RANGE_TO_DATA {
            match decode_model::<NfNetlinkData>(payload) {
                Err(e) => Err(e),
                Ok(v) => Ok(RangeModel { to: Some(v), ..m }),
            }
        } else {
            Ok(m)
        }
    }

    fn empty() -> (r: Self) {
        Range { sreg: None, op: None, from: None, to: None }
    }

    fn write_payload(&self, buf: &mut Vec<u8>) -> (r: Result<(), BuilderError>) {
        let ghost fields = Self::fields(self@);
        proof {
            lemma_wire_split(fields, 4);
            assert(buf@ + wire_upto(fields, 0) =~= buf@);
            assert(fit_upto(fields, 0));
        }
        write_enum_field(buf, NFTA_RANGE_SREG, self.sreg);
        assert(buf@ == old(buf)@ + wire_upto(fields, 1) && fit_upto(fields, 1));
        write_enum_field(buf, NFTA_RANGE_OP, self.op);
        assert(buf@ == old(buf)@ + wire_upto(fields, 2) && fit_upto(fields, 2));
        match write_nested_field(buf, NFTA_RANGE_FROM_DATA, &self.from) {
            Err(e) => {
                proof {
                    lemma_unfit_at(fields, 0, 2);
                }
                return Err(e);
            },
            Ok(()) => {},
        }
        assert(buf@ == old(buf)@ + wire_upto(fields, 3) && fit_upto(fields, 3));
        match write_nested_field(buf, NFTA_RANGE_TO_DATA, &self.to) {
            Err(e) => {
                proof {
                    lemma_unfit_at(fields, 0, 3);
                }
                return Err(e);
            },
            Ok(()) => {},
        }
        assert(buf@ == old(buf)@ + wire_upto(fields, 4) && fit_upto(fields, 4));
        proof {
            lemma_fit_upto(fields, 4);
        }
        Ok(())
    }

    fn equals(&self, other: &Self) -> (b: bool) {
        let same_sreg = match (self.sreg, other.sreg) {
            (None, None) => true,
            (Some(x), Some(y)) => x == y,
            _ => false,
        };
        let same_op = match (self.op, other.op) {
            (None, None) => true,
            (Some(x), Some(y)) => x == y,
            _ => false,
        };
        same_sreg
            && same_op
            && opt_object_eq(&self.from, &other.from)
            && opt_object_eq(&self.to, &other.to)
    }

    fn decode_attribute(self, code: u16, payload: &[u8]) -> (r: Result<Self, DecodeError>) {
        if code == NFTA_RANGE_SREG {
            let v = read_enum::<Register>(payload)?;
            Ok(Range { sreg: Some(v), ..self })
        } else if code == NFTA_RANGE_OP {
            let v = read_enum::<CmpOp>(payload)?;
            Ok(Range { op: Some(v), ..self })
        } else if code == NFTA_RANGE_FROM_DATA {
            let v = deserialize::<NfNetlinkData>(payload)?;
            Ok(Range { from: Some(v), ..self })
        } else if code == NFTA_RANGE_TO_DATA {
            let v = deserialize::<NfNetlinkData>(payload)?;
            Ok(Range { to: Some(v), ..self })
        } else {
            Ok(self)
        }
    }
}

impl Lossless for Range {
    open spec fn valid(m: RangeModel) -> bool {
        &&& m.from is Some ==> NfNetlinkData::valid(m.from.unwrap())
        &&& m.to is Some ==> NfNetlinkData::valid(m.to.unwrap())
    }

    proof fn lemma_roundtrip(m: RangeModel) {
        let fields = Self::fields(m);
        let s0 = Self::empty_model();
        lemma_decode_fields::<Self>(s0, fields, 0);
        let s1 = RangeModel { sreg: m.sreg, ..s0 };
        assert(apply_from::<Self>(s0, fields, 0) == apply_from::<Self>(
            s1,
            fields,
            1,
        )) by {
            if m.sreg is Some {
                let payload = be32(m.sreg.unwrap().code());
                lemma_decode_enum::<Register>(m.sreg.unwrap());
                assert(Self::apply_model(s0, NFTA_RANGE_SREG, payload) == Ok::<
                    RangeModel,
                    DecodeError,
                >(s1));
            }
            lemma_apply_step::<Self>(s0, s1, fields, 0);
        }
        let s2 = RangeModel { op: m.op, ..s1 };
        assert(apply_from::<Self>(s1, fields, 1) == apply_from::<Self>(
            s2,
            fields,
            2,
        )) by {
            if m.op is Some {
                let payload = be32(m.op.unwrap().code());
                lemma_decode_enum::<CmpOp>(m.op.unwrap());
                assert(Self::apply_model(s1, NFTA_RANGE_OP, payload) == Ok::<
                    RangeModel,
                    DecodeError,
                >(s2));
            }
            lemma_apply_step::<Self>(s1, s2, fields, 1);
        }
        let s3 = RangeModel { from: m.from, ..s2 };
        assert(apply_from::<Self>(s2, fields, 2) == apply_from::<Self>(
            s3,
            fields,
            3,
        )) by {
            if m.from is Some {
                let payload = fields_wire(NfNetlinkData::fields(m.from.unwrap()));
                lemma_fit_each(fields, 0, 2);
                lemma_nested_type_code(NFTA_RANGE_FROM_DATA);
                lemma_decode_nested::<NfNetlinkData>(m.from.unwrap());
                assert(Self::apply_model(s2, NFTA_RANGE_FROM_DATA, payload) == Ok::<
                    RangeModel,
                    DecodeError,
                >(s3));
            }
            lemma_apply_step::<Self>(s2, s3, fields, 2);
        }
        let s4 = RangeModel { to: m.to, ..s3 };
        assert(apply_from::<Self>(s3, fields, 3) == apply_from::<Self>(
            s4,
            fields,
            4,
        )) by {
            if m.to is Some {
                let payload = fields_wire(NfNetlinkData::fields(m.to.unwrap()));
                lemma_fit_each(fields, 0, 3);
                lemma_nested_type_code(NFTA_RANGE_TO_DATA);
                lemma_decode_nested::<NfNetlinkData>(m.to.unwrap());
                assert(Self::apply_model(s3, NFTA_RANGE_TO_DATA, payload) == Ok::<
                    RangeModel,
                    DecodeError,
                >(s4));
            }
            lemma_apply_step::<Self>(s3, s4, fields, 3);
        }
        assert(s4 == m);
    }
}

impl Expression for Range {
    open spec fn kind() -> ExpressionKind {
        ExpressionKind::Range
    }

    open spec fn wrap(m: RangeModel) -> ExpressionDataModel {
        ExpressionDataModel::Range(m)
    }

    fn get_kind() -> (k: ExpressionKind) {
        ExpressionKind::Range
    }

    fn into_data(self) -> (d: ExpressionData) {
        ExpressionData::Range(self)
    }
}

} // verus!
