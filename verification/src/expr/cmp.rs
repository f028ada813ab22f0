//! The comparison expression.

use vstd::prelude::*;
use crate::attr::lemma_nested_type_code;
use crate::bytes::be32;
use crate::data::{NfNetlinkData, NfNetlinkDataModel};
use crate::error::{BuilderError, DecodeError};
use crate::expr::kind::{Expression, ExpressionKind};
use crate::expr::raw::{ExpressionData, ExpressionDataModel};
use crate::expr::register::Register;
use crate::field::{
    WireEnum, decode_enum, enum_field, lemma_decode_enum, lemma_decode_nested, model_fields,
    nested_field, opt_model, opt_object_eq, read_enum, write_enum_field, write_nested_field,
};
use crate::schema::{
    Fields, Lossless, NfNetlinkAttribute, apply_from, decode_model, deserialize, fields_wire,
    fit_upto, lemma_apply_step, lemma_decode_fields, lemma_fit_each, lemma_fit_upto,
    lemma_unfit_at, lemma_wire_split, wire_upto,
};
use crate::sys::{
    NFTA_CMP_DATA, NFTA_CMP_OP, NFTA_CMP_SREG, NFT_CMP_EQ, NFT_CMP_GT, NFT_CMP_GTE, NFT_CMP_LT,
    NFT_CMP_LTE, NFT_CMP_NEQ,
};

verus! {

/// How a comparison compares.
#[derive(Clone, Copy, Debug, PartialEq, Eq, Hash, Structural)]
pub enum CmpOp {
    /// Equal.
    Eq,
    /// Not equal.
    Neq,
    /// Less than.
    Lt,
    /// Less than or equal.
    Lte,
    /// Greater than.
    Gt,
    /// Greater than or equal.
    Gte,
}

impl WireEnum for CmpOp {
    open spec fn code(self) -> u32 {
        match self {
            CmpOp::Eq => NFT_CMP_EQ,
            CmpOp::Neq => NFT_CMP_NEQ,
            CmpOp::Lt => NFT_CMP_LT,
            CmpOp::Lte => NFT_CMP_LTE,
            CmpOp::Gt => NFT_CMP_GT,
            CmpOp::Gte => NFT_CMP_GTE,
        }
    }

    open spec fn of_code(c: u32) -> Option<Self> {
        if c == NFT_CMP_EQ {
            Some(CmpOp::Eq)
        } else if c == NFT_CMP_NEQ {
            Some(CmpOp::Neq)
        } else if c == NFT_CMP_LT {
            Some(CmpOp::Lt)
        } else if c == NFT_CMP_LTE {
            Some(CmpOp::Lte)
        } else if c == NFT_CMP_GT {
            Some(CmpOp::Gt)
        } else if c == NFT_CMP_GTE {
            Some(CmpOp::Gte)
        } else {
            None
        }
    }

    fn to_code(self) -> (c: u32) {
        match self {
            CmpOp::Eq => NFT_CMP_EQ,
            CmpOp::Neq => NFT_CMP_NEQ,
            CmpOp::Lt => NFT_CMP_LT,
            CmpOp::Lte => NFT_CMP_LTE,
            CmpOp::Gt => NFT_CMP_GT,
            CmpOp::Gte => NFT_CMP_GTE,
        }
    }

    fn from_code(c: u32) -> (r: Option<Self>) {
        if c == NFT_CMP_EQ {
            Some(CmpOp::Eq)
        } else if c == NFT_CMP_NEQ {
            Some(CmpOp::Neq)
        } else if c == NFT_CMP_LT {
            Some(CmpOp::Lt)
        } else if c == NFT_CMP_LTE {
            Some(CmpOp::Lte)
        } else if c == NFT_CMP_GT {
            Some(CmpOp::Gt)
        } else if c == NFT_CMP_GTE {
            Some(CmpOp::Gte)
        } else {
            None
        }
    }

    proof fn lemma_code(self) {
    }
}

/// Compares the value of a register with an operand. A packet goes on
/// through the rule only if the comparison holds.
#[derive(Clone, Debug, PartialEq, Eq, Hash)]
pub struct Cmp {
    /// The register whose value is compared.
    pub sreg: Option<Register>,
    /// How the two are compared.
    pub op: Option<CmpOp>,
    /// The operand that the value is compared with.
    pub data: Option<NfNetlinkData>,
}

/// What a [`Cmp`] holds, as plain values.
pub struct CmpModel {
    pub sreg: Option<Register>,
    pub op: Option<CmpOp>,
    pub data: Option<NfNetlinkDataModel>,
}

impl View for Cmp {
    type V = CmpModel;

    open spec fn view(&self) -> CmpModel {
        CmpModel {
            sreg: self.sreg,
            op: self.op,
            data: opt_model(self.data),
        }
    }
}

impl Cmp {
    /// The comparison of the first data register with `data`. The operand is
    /// taken as it is: its length is part of it.
    pub fn new(op: CmpOp, data: Vec<u8>) -> (r: Self)
        ensures
            r@ == (CmpModel {
                sreg: Some(Register::Reg1),
                op: Some(op),
                data: Some(NfNetlinkDataModel { value: Some(data@), verdict: None }),
            }),
    {
        Cmp {
            sreg: Some(Register::Reg1),
            op: Some(op),
            data: Some(NfNetlinkData::from_value(data)),
        }
    }

    /// The same object with this field set: the register whose value is compared.
    pub fn with_sreg(self, v: Register) -> (r: Self)
        ensures
            r@ == (CmpModel { sreg: Some(v), ..self@ }),
    {
        Cmp { sreg: Some(v), ..self }
    }

    /// Sets this field: the register whose value is compared.
    pub fn set_sreg(&mut self, v: Register)
        ensures
            final(self)@ == (CmpModel { sreg: Some(v), ..old(self)@ }),
    {
        self.sreg = Some(v);
    }

    /// This field, if it is present: the register whose value is compared.
    pub fn get_sreg(&self) -> (r: Option<&Register>)
        ensures
            r is Some <==> self.sreg is Some,
            r is Some ==> *r.unwrap() == self.sreg.unwrap(),
    {
        self.sreg.as_ref()
    }

    /// The same object with this field set: how the two are compared.
    pub fn with_op(self, v: CmpOp) -> (r: Self)
        ensures
            r@ == (CmpModel { op: Some(v), ..self@ }),
    {
        Cmp { op: Some(v), ..self }
    }

    /// Sets this field: how the two are compared.
    pub fn set_op(&mut self, v: CmpOp)
        ensures
            final(self)@ == (CmpModel { op: Some(v), ..old(self)@ }),
    {
        self.op = Some(v);
    }

    /// This field, if it is present: how the two are compared.
    pub fn get_op(&self) -> (r: Option<&CmpOp>)
        ensures
            r is Some <==> self.op is Some,
            r is Some ==> *r.unwrap() == self.op.unwrap(),
    {
        self.op.as_ref()
    }

    /// The same object with this field set: the operand that the value is
    /// compared with.
    pub fn with_data(self, v: NfNetlinkData) -> (r: Self)
        ensures
            r@ == (CmpModel { data: Some(v@), ..self@ }),
    {
        Cmp { data: Some(v), ..self }
    }

    /// Sets this field: the operand that the value is compared with.
    pub fn set_data(&mut self, v: NfNetlinkData)
        ensures
            final(self)@ == (CmpModel { data: Some(v@), ..old(self)@ }),
    {
        self.data = Some(v);
    }

    /// This field, if it is present: the operand that the value is compared with.
    pub fn get_data(&self) -> (r: Option<&NfNetlinkData>)
        ensures
            r is Some <==> self.data is Some,
            r is Some ==> *r.unwrap() == self.data.unwrap(),
    {
        self.data.as_ref()
    }
}

impl Default for Cmp {
    fn default() -> (r: Self)
        ensures
            r@ == <Cmp as NfNetlinkAttribute>::empty_model(),
    {
        <Cmp as NfNetlinkAttribute>::empty()
    }
}

impl NfNetlinkAttribute for Cmp {
    open spec fn fields(m: CmpModel) -> Fields {
        seq![
            enum_field(NFTA_CMP_SREG, m.sreg),
            enum_field(NFTA_CMP_OP, m.op),
            nested_field(NFTA_CMP_DATA, model_fields::<NfNetlinkData>(m.data)),
        ]
    }

    open spec fn empty_model() -> CmpModel {
        CmpModel { sreg: None, op: None, data: None }
    }

    open spec fn apply_model(m: CmpModel, code: u16, payload: Seq<u8>) -> Result<
        CmpModel,
        DecodeError,
    > {
        if code == NFTA_CMP_SREG {
            match decode_enum::<Register>(payload) {
                Err(e) => Err(e),
                Ok(v) => Ok(CmpModel { sreg: Some(v), ..m }),
            }
        } else if code == NFTA_CMP_OP {
            match decode_enum::<CmpOp>(payload) {
                Err(e) => Err(e),
                Ok(v) => Ok(CmpModel { op: Some(v), ..m }),
            }
        } else if code == NFTA_CMP_DATA {
            match decode_model::<NfNetlinkData>(payload) {
                Err(e) => Err(e),
                Ok(v) => Ok(CmpModel { data: Some(v), ..m }),
            }
        } else {
            Ok(m)
        }
    }

    fn empty() -> (r: Self) {
        Cmp { sreg: None, op: None, data: None }
    }

    fn write_payload(&self, buf: &mut Vec<u8>) -> (r: Result<(), BuilderError>) {
        let ghost fields = Self::fields(self@);
        proof {
            lemma_wire_split(fields, 3);
            assert(buf@ + wire_upto(fields, 0) =~= buf@);
            assert(fit_upto(fields, 0));
        }
        write_enum_field(buf, NFTA_CMP_SREG, self.sreg);
        assert(buf@ == old(buf)@ + wire_upto(fields, 1) && fit_upto(fields, 1));
        write_enum_field(buf, NFTA_CMP_OP, self.op);
        assert(buf@ == old(buf)@ + wire_upto(fields, 2) && fit_upto(fields, 2));
        match write_nested_field(buf, NFTA_CMP_DATA, &self.data) {
            Err(e) => {
                proof {
                    lemma_unfit_at(fields, 0, 2);
                }
                return Err(e);
            },
            Ok(()) => {},
        }
        assert(buf@ == old(buf)@ + wire_upto(fields, 3) && fit_upto(fields, 3));
        proof {
            lemma_fit_upto(fields, 3);
        }
        Ok(())
    }

    fn equals(&self, other: &Self) -> (b: bool) {
        let same_sreg = match (self.sreg, other.sreg) {
            (None, None) => true,
            (Some(x), Some(y)) => x == y,
            _ => false,
        };
        let same_op = match (self.op, other.op) {
            (None, None) => true,
            (Some(x), Some(y)) => x == y,
            _ => false,
        };
        same_sreg && same_op && opt_object_eq(&self.data, &other.data)
    }

    fn decode_attribute(self, code: u16, payload: &[u8]) -> (r: Result<Self, DecodeError>) {
        if code == NFTA_CMP_SREG {
            let v = read_enum::<Register>(payload)?;
            Ok(Cmp { sreg: Some(v), ..self })
        } else if code == NFTA_CMP_OP {
            let v = read_enum::<CmpOp>(payload)?;
            Ok(Cmp { op: Some(v), ..self })
        } else if code == NFTA_CMP_DATA {
            let v = deserialize::<NfNetlinkData>(payload)?;
            Ok(Cmp { data: Some(v), ..self })
        } else {
            Ok(self)
        }
    }
}

impl Lossless for Cmp {
    open spec fn valid(m: CmpModel) -> bool {
        m.data is Some ==> NfNetlinkData::valid(m.data.unwrap())
    }

    proof fn lemma_roundtrip(m: CmpModel) {
        let fields = Self::fields(m);
        let s0 = Self::empty_model();
        lemma_decode_fields::<Self>(s0, fields, 0);
        let s1 = CmpModel { sreg: m.sreg, ..s0 };
        assert(apply_from::<Self>(s0, fields, 0) == apply_from::<Self>(
            s1,
            fields,
            1,
        )) by {
            if m.sreg is Some {
                let payload = be32(m.sreg.unwrap().code());
                lemma_decode_enum::<Register>(m.sreg.unwrap());
                assert(Self::apply_model(s0, NFTA_CMP_SREG, payload) == Ok::<
                    CmpModel,
                    DecodeError,
                >(s1));
            }
            lemma_apply_step::<Self>(s0, s1, fields, 0);
        }
        let s2 = CmpModel { op: m.op, ..s1 };
        assert(apply_from::<Self>(s1, fields, 1) == apply_from::<Self>(
            s2,
            fields,
            2,
        )) by {
            if m.op is Some {
                let payload = be32(m.op.unwrap().code());
                lemma_decode_enum::<CmpOp>(m.op.unwrap());
                assert(Self::apply_model(s1, NFTA_CMP_OP, payload) == Ok::<
                    CmpModel,
                    DecodeError,
                >(s2));
            }
            lemma_apply_step::<Self>(s1, s2, fields, 1);
        }
        let s3 = CmpModel { data: m.data, ..s2 };
        assert(apply_from::<Self>(s2, fields, 2) == apply_from::<Self>(
            s3,
            fields,
            3,
        )) by {
            if m.data is Some {
                let payload = fields_wire(NfNetlinkData::fields(m.data.unwrap()));
                lemma_fit_each(fields, 0, 2);
                lemma_nested_type_code(NFTA_CMP_DATA);
                lemma_decode_nested::<NfNetlinkData>(m.data.unwrap());
                assert(Self::apply_model(s2, NFTA_CMP_DATA, payload) == Ok::<
                    CmpModel,
                    DecodeError,
                >(s3));
            }
            lemma_apply_step::<Self>(s2, s3, fields, 2);
        }
        assert(s3 == m);
    }
}

impl Expression for Cmp {
    open spec fn kind() -> ExpressionKind {
        ExpressionKind::Cmp
    }

    open spec fn wrap(m: CmpModel) -> ExpressionDataModel {
        ExpressionDataModel::Cmp(m)
    }

    fn get_kind() -> (k: ExpressionKind) {
        ExpressionKind::Cmp
    }

    fn into_data(self) -> (d: ExpressionData) {
        ExpressionData::Cmp(self)
    }
}

} // verus!
