//! The immediate expression: loads a constant or ends the rule with a verdict.

use vstd::prelude::*;
use crate::attr::lemma_nested_type_code;
use crate::bytes::be32;
use crate::data::{
    NfNetlinkData, NfNetlinkDataModel, VerdictAttribute, VerdictAttributeModel, VerdictType,
};
use crate::error::{BuilderError, DecodeError};
use crate::expr::kind::{Expression, ExpressionKind};
use crate::expr::raw::{ExpressionData, ExpressionDataModel};
use crate::expr::register::Register;
use crate::field::{
    WireEnum, decode_enum, enum_field, lemma_decode_enum, lemma_decode_nested, model_fields,
    nested_field, opt_model, opt_object_eq, read_enum, write_enum_field, write_nested_field,
};
use crate::schema::{
    Fields, Lossless, NfNetlinkAttribute, apply_from, decode_model, deserialize, fields_wire,
    fit_upto, lemma_apply_step, lemma_decode_fields, lemma_fit_each, lemma_fit_upto,
    lemma_unfit_at, lemma_wire_split, wire_upto,
};
use crate::sys::{NFTA_IMMEDIATE_DATA, NFTA_IMMEDIATE_DREG};

verus! {

/// A verdict as a rule's author states it.
#[derive(Clone, Debug, PartialEq, Eq, Hash)]
pub enum VerdictKind {
    /// Drop the packet.
    Drop,
    /// Let the packet pass.
    Accept,
    /// Hand the packet to a queue in user space.
    Queue,
    /// Go on with the next expression.
    Continue,
    /// Leave the rule and go on with the next rule.
    Break,
    /// Go through the named chain, then come back.
    Jump { chain: String },
    /// Go on in the named chain, without coming back.
    Goto { chain: String },
    /// Go back to the chain that jumped here.
    Return,
}

/// The number that a verdict goes on the wire with.
pub open spec fn verdict_type_of(kind: VerdictKind) -> VerdictType {
    match kind {
        VerdictKind::Drop => VerdictType::Drop,
        VerdictKind::Accept => VerdictType::Accept,
        VerdictKind::Queue => VerdictType::Queue,
        VerdictKind::Continue => VerdictType::Continue,
        VerdictKind::Break => VerdictType::Break,
        VerdictKind::Jump { chain } => VerdictType::Jump,
        VerdictKind::Goto { chain } => VerdictType::Goto,
        VerdictKind::Return => VerdictType::Return,
    }
}

/// The chain that a verdict names: that of a jump or a goto.
pub open spec fn verdict_chain_of(kind: VerdictKind) -> Option<Seq<char>> {
    match kind {
        VerdictKind::Jump { chain } => Some(chain@),
        VerdictKind::Goto { chain } => Some(chain@),
        _ => None,
    }
}

/// Writes an operand into a register: raw bytes into a data register, or
/// a verdict into the verdict register.
#[derive(Clone, Debug, PartialEq, Eq, Hash)]
pub struct Immediate {
    /// The register that the operand is written to.
    pub dreg: Option<Register>,
    /// The operand.
    pub data: Option<NfNetlinkData>,
}

/// What a [`Immediate`] holds, as plain values.
pub struct ImmediateModel {
    pub dreg: Option<Register>,
    pub data: Option<NfNetlinkDataModel>,
}

impl View for Immediate {
    type V = ImmediateModel;

    open spec fn view(&self) -> ImmediateModel {
        ImmediateModel {
            dreg: self.dreg,
            data: opt_model(self.data),
        }
    }
}

impl Immediate {
    /// The expression that writes the bytes `data` into `register`.
    pub fn new_data(data: Vec<u8>, register: Register) -> (r: Self)
        ensures
            r@ == (ImmediateModel {
                dreg: Some(register),
                data: Some(NfNetlinkDataModel { value: Some(data@), verdict: None }),
            }),
    {
        Immediate { dreg: Some(register), data: Some(NfNetlinkData::from_value(data)) }
    }

    /// The expression that ends the rule with a verdict. The number of the
    /// verdict, and the chain's name where it is a jump or a goto, go into the
    /// verdict register.
    pub fn new_verdict(kind: VerdictKind) -> (r: Self)
        ensures
            r@ == (ImmediateModel {
                dreg: Some(Register::Verdict),
                data: Some(
                    NfNetlinkDataModel {
                        value: None,
                        verdict: Some(
                            VerdictAttributeModel {
                                code: Some(verdict_type_of(kind)),
                                chain: verdict_chain_of(kind),
                                chain_id: None,
                            },
                        ),
                    },
                ),
            }),
    {
        let (code, chain) = match kind {
            VerdictKind::Drop => (VerdictType::Drop, None),
            VerdictKind::Accept => (VerdictType::Accept, None),
            VerdictKind::Queue => (VerdictType::Queue, None),
            VerdictKind::Continue => (VerdictType::Continue, None),
            VerdictKind::Break => (VerdictType::Break, None),
            VerdictKind::Jump { chain } => (VerdictType::Jump, Some(chain)),
            VerdictKind::Goto { chain } => (VerdictType::Goto, Some(chain)),
            VerdictKind::Return => (VerdictType::Return, None),
        };
        let verdict = VerdictAttribute { code: Some(code), chain, chain_id: None };
        Immediate {
            dreg: Some(Register::Verdict),
            data: Some(NfNetlinkData { value: None, verdict: Some(verdict) }),
        }
    }

    /// The same object with this field set: the register that the operand is
    /// written to.
    pub fn with_dreg(self, v: Register) -> (r: Self)
        ensures
            r@ == (ImmediateModel { dreg: Some(v), ..self@ }),
    {
        Immediate { dreg: Some(v), ..self }
    }

    /// Sets this field: the register that the operand is written to.
    pub fn set_dreg(&mut self, v: Register)
        ensures
            final(self)@ == (ImmediateModel { dreg: Some(v), ..old(self)@ }),
    {
        self.dreg = Some(v);
    }

    /// This field, if it is present: the register that the operand is written to.
    pub fn get_dreg(&self) -> (r: Option<&Register>)
        ensures
            r is Some <==> self.dreg is Some,
            r is Some ==> *r.unwrap() == self.dreg.unwrap(),
    {
        self.dreg.as_ref()
    }

    /// The same object with this field set: the operand.
    pub fn with_data(self, v: NfNetlinkData) -> (r: Self)
        ensures
            r@ == (ImmediateModel { data: Some(v@), ..self@ }),
    {
        Immediate { data: Some(v), ..self }
    }

    /// Sets this field: the operand.
    pub fn set_data(&mut self, v: NfNetlinkData)
        ensures
            final(self)@ == (ImmediateModel { data: Some(v@), ..old(self)@ }),
    {
        self.data = Some(v);
    }

    /// This field, if it is present: the operand.
    pub fn get_data(&self) -> (r: Option<&NfNetlinkData>)
        ensures
            r is Some <==> self.data is Some,
            r is Some ==> *r.unwrap() == self.data.unwrap(),
    {
        self.data.as_ref()
    }
}

impl Default for Immediate {
    fn default() -> (r: Self)
        ensures
            r@ == <Immediate as NfNetlinkAttribute>::empty_model(),
    {
        <Immediate as NfNetlinkAttribute>::empty()
    }
}

impl NfNetlinkAttribute for Immediate {
    open spec fn fields(m: ImmediateModel) -> Fields {
        seq![
            enum_field(NFTA_IMMEDIATE_DREG, m.dreg),
            nested_field(NFTA_IMMEDIATE_DATA, model_fields::<NfNetlinkData>(m.data)),
        ]
    }

    open spec fn empty_model() -> ImmediateModel {
        ImmediateModel { dreg: None, data: None }
    }

    open spec fn apply_model(m: ImmediateModel, code: u16, payload: Seq<u8>) -> Result<
        ImmediateModel,
        DecodeError,
    > {
        if code == NFTA_IMMEDIATE_DREG {
            match decode_enum::<Register>(payload) {
                Err(e) => Err(e),
                Ok(v) => Ok(ImmediateModel { dreg: Some(v), ..m }),
            }
        } else if code == NFTA_IMMEDIATE_DATA {
            match decode_model::<NfNetlinkData>(payload) {
                Err(e) => Err(e),
                Ok(v) => Ok(ImmediateModel { data: Some(v), ..m }),
            }
        } else {
            Ok(m)
        }
    }

    fn empty() -> (r: Self) {
        Immediate { dreg: None, data: None }
    }

    fn write_payload(&self, buf: &mut Vec<u8>) -> (r: Result<(), BuilderError>) {
        let ghost fields = Self::fields(self@);
        proof {
            lemma_wire_split(fields, 2);
            assert(buf@ + wire_upto(fields, 0) =~= buf@);
            assert(fit_upto(fields, 0));
        }
        write_enum_field(buf, NFTA_IMMEDIATE_DREG, self.dreg);
        assert(buf@ == old(buf)@ + wire_upto(fields, 1) && fit_upto(fields, 1));
        match write_nested_field(buf, NFTA_IMMEDIATE_DATA, &self.data) {
            Err(e) => {
                proof {
                    lemma_unfit_at(fields, 0, 1);
                }
                return Err(e);
            },
            Ok(()) => {},
        }
        assert(buf@ == old(buf)@ + wire_upto(fields, 2) && fit_upto(fields, 2));
        proof {
            lemma_fit_upto(fields, 2);
        }
        Ok(())
    }

    fn equals(&self, other: &Self) -> (b: bool) {
        let same_dreg = match (self.dreg, other.dreg) {
            (None, None) => true,
            (Some(x), Some(y)) => x == y,
            _ => false,
        };
        same_dreg && opt_object_eq(&self.data, &other.data)
    }

    fn decode_attribute(self, code: u16, payload: &[u8]) -> (r: Result<Self, DecodeError>) {
        if code == NFTA_IMMEDIATE_DREG {
            let v = read_enum::<Register>(payload)?;
            Ok(Immediate { dreg: Some(v), ..self })
        } else if code == NFTA_IMMEDIATE_DATA {
            let v = deserialize::<NfNetlinkData>(payload)?;
            Ok(Immediate { data: Some(v), ..self })
        } else {
            Ok(self)
        }
    }
}

impl Lossless for Immediate {
    open spec fn valid(m: ImmediateModel) -> bool {
        m.data is Some ==> NfNetlinkData::valid(m.data.unwrap())
    }

    proof fn lemma_roundtrip(m: ImmediateModel) {
        let fields = Self::fields(m);
        let s0 = Self::empty_model();
        lemma_decode_fields::<Self>(s0, fields, 0);
        let s1 = ImmediateModel { dreg: m.dreg, ..s0 };
        assert(apply_from::<Self>(s0, fields, 0) == apply_from::<Self>(
            s1,
            fields,
            1,
        )) by {
            if m.dreg is Some {
                let payload = be32(m.dreg.unwrap().code());
                lemma_decode_enum::<Register>(m.dreg.unwrap());
                assert(Self::apply_model(s0, NFTA_IMMEDIATE_DREG, payload) == Ok::<
                    ImmediateModel,
                    DecodeError,
                >(s1));
            }
            lemma_apply_step::<Self>(s0, s1, fields, 0);
        }
        let s2 = ImmediateModel { data: m.data, ..s1 };
        assert(apply_from::<Self>(s1, fields, 1) == apply_from::<Self>(
            s2,
            fields,
            2,
        )) by {
            if m.data is Some {
                let payload = fields_wire(NfNetlinkData::fields(m.data.unwrap()));
                lemma_fit_each(fields, 0, 1);
                lemma_nested_type_code(NFTA_IMMEDIATE_DATA);
                lemma_decode_nested::<NfNetlinkData>(m.data.unwrap());
                assert(Self::apply_model(s1, NFTA_IMMEDIATE_DATA, payload) == Ok::<
                    ImmediateModel,
                    DecodeError,
                >(s2));
            }
            lemma_apply_step::<Self>(s1, s2, fields, 1);
        }
        assert(s2 == m);
    }
}

impl Expression for Immediate {
    open spec fn kind() -> ExpressionKind {
        ExpressionKind::Immediate
    }

    open spec fn wrap(m: ImmediateModel) -> ExpressionDataModel {
        ExpressionDataModel::Immediate(m)
    }

    fn get_kind() -> (k: ExpressionKind) {
        ExpressionKind::Immediate
    }

    fn into_data(self) -> (d: ExpressionData) {
        ExpressionData::Immediate(self)
    }
}

} // verus!
