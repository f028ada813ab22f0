//! An expression as it stands in a rule: the name of its kind and, under
//! that name, the fields of the expression itself.

use vstd::prelude::*;
use crate::error::{BuilderError, DecodeError};
use crate::expr::kind::{Expression, ExpressionKind};
use crate::expr::bitwise::{Bitwise, BitwiseModel};
use crate::expr::cmp::{Cmp, CmpModel};
use crate::expr::counter::Counter;
use crate::expr::ct::Conntrack;
use crate::expr::immediate::{Immediate, ImmediateModel};
use crate::expr::log::{Log, LogModel};
use crate::expr::lookup::{Lookup, LookupModel};
use crate::expr::masquerade::Masquerade;
use crate::expr::meta::Meta;
use crate::expr::translation::Nat;
use crate::expr::payload::Payload;
use crate::expr::range::{Range, RangeModel};
use crate::expr::reject::Reject;
use crate::attr::{attr_bytes, attr_fits, lemma_nested_type_code, nested_type};
use crate::field::{
    decode_string, group_field_roundtrip, lemma_decode_string, opt_model, opt_string_eq,
    read_string, string_field, write_nested, write_string_field,
};
use crate::schema::{
    apply_from, decode_model, deserialize, fields_wire, fit_upto, lemma_apply_step,
    lemma_decode_fields, lemma_fit_each, lemma_fit_upto, lemma_unfit_at, lemma_wire_split,
    wire_upto, Attr, Fields, Lossless, NfNetlinkAttribute,
};
use crate::sys::{NFTA_EXPR_DATA, NFTA_EXPR_NAME};

verus! {

/// The fields of an expression, of whichever kind it is.
#[derive(Clone, Debug, PartialEq, Eq, Hash)]
pub enum ExpressionData {
    Bitwise(Bitwise),
    Cmp(Cmp),
    Counter(Counter),
    Conntrack(Conntrack),
    Immediate(Immediate),
    Log(Log),
    Lookup(Lookup),
    Masquerade(Masquerade),
    Meta(Meta),
    Nat(Nat),
    Payload(Payload),
    Range(Range),
    Reject(Reject),
}

/// What an [`ExpressionData`] holds, as plain values.
pub enum ExpressionDataModel {
    Bitwise(BitwiseModel),
    Cmp(CmpModel),
    Counter(Counter),
    Conntrack(Conntrack),
    Immediate(ImmediateModel),
    Log(LogModel),
    Lookup(LookupModel),
    Masquerade(Masquerade),
    Meta(Meta),
    Nat(Nat),
    Payload(Payload),
    Range(RangeModel),
    Reject(Reject),
}

impl View for ExpressionData {
    type V = ExpressionDataModel;

    open spec fn view(&self) -> ExpressionDataModel {
        match self {
            ExpressionData::Bitwise(x) => ExpressionDataModel::Bitwise(x@),
            ExpressionData::Cmp(x) => ExpressionDataModel::Cmp(x@),
            ExpressionData::Counter(x) => ExpressionDataModel::Counter(x@),
            ExpressionData::Conntrack(x) => ExpressionDataModel::Conntrack(x@),
            ExpressionData::Immediate(x) => ExpressionDataModel::Immediate(x@),
            ExpressionData::Log(x) => ExpressionDataModel::Log(x@),
            ExpressionData::Lookup(x) => ExpressionDataModel::Lookup(x@),
            ExpressionData::Masquerade(x) => ExpressionDataModel::Masquerade(x@),
            ExpressionData::Meta(x) => ExpressionDataModel::Meta(x@),
            ExpressionData::Nat(x) => ExpressionDataModel::Nat(x@),
            ExpressionData::Payload(x) => ExpressionDataModel::Payload(x@),
            ExpressionData::Range(x) => ExpressionDataModel::Range(x@),
            ExpressionData::Reject(x) => ExpressionDataModel::Reject(x@),
        }
    }
}

impl ExpressionDataModel {
    /// The kind of this expression.
    pub open spec fn kind(self) -> ExpressionKind {
        match self {
            ExpressionDataModel::Bitwise(x) => ExpressionKind::Bitwise,
            ExpressionDataModel::Cmp(x) => ExpressionKind::Cmp,
            ExpressionDataModel::Counter(x) => ExpressionKind::Counter,
            ExpressionDataModel::Conntrack(x) => ExpressionKind::Conntrack,
            ExpressionDataModel::Immediate(x) => ExpressionKind::Immediate,
            ExpressionDataModel::Log(x) => ExpressionKind::Log,
            ExpressionDataModel::Lookup(x) => ExpressionKind::Lookup,
            ExpressionDataModel::Masquerade(x) => ExpressionKind::Masquerade,
            ExpressionDataModel::Meta(x) => ExpressionKind::Meta,
            ExpressionDataModel::Nat(x) => ExpressionKind::Nat,
            ExpressionDataModel::Payload(x) => ExpressionKind::Payload,
            ExpressionDataModel::Range(x) => ExpressionKind::Range,
            ExpressionDataModel::Reject(x) => ExpressionKind::Reject,
        }
    }

    /// The schema of this expression: that of its kind.
    pub open spec fn fields(self) -> Fields {
        match self {
            ExpressionDataModel::Bitwise(x) => Bitwise::fields(x),
            ExpressionDataModel::Cmp(x) => Cmp::fields(x),
            ExpressionDataModel::Counter(x) => Counter::fields(x),
            ExpressionDataModel::Conntrack(x) => Conntrack::fields(x),
            ExpressionDataModel::Immediate(x) => Immediate::fields(x),
            ExpressionDataModel::Log(x) => Log::fields(x),
            ExpressionDataModel::Lookup(x) => Lookup::fields(x),
            ExpressionDataModel::Masquerade(x) => Masquerade::fields(x),
            ExpressionDataModel::Meta(x) => Meta::fields(x),
            ExpressionDataModel::Nat(x) => Nat::fields(x),
            ExpressionDataModel::Payload(x) => Payload::fields(x),
            ExpressionDataModel::Range(x) => Range::fields(x),
            ExpressionDataModel::Reject(x) => Reject::fields(x),
        }
    }

    /// What this expression must satisfy for decoding to undo encoding.
    pub open spec fn valid(self) -> bool {
        match self {
            ExpressionDataModel::Bitwise(x) => Bitwise::valid(x),
            ExpressionDataModel::Cmp(x) => Cmp::valid(x),
            ExpressionDataModel::Counter(x) => Counter::valid(x),
            ExpressionDataModel::Conntrack(x) => Conntrack::valid(x),
            ExpressionDataModel::Immediate(x) => Immediate::valid(x),
            ExpressionDataModel::Log(x) => Log::valid(x),
            ExpressionDataModel::Lookup(x) => Lookup::valid(x),
            ExpressionDataModel::Masquerade(x) => Masquerade::valid(x),
            ExpressionDataModel::Meta(x) => Meta::valid(x),
            ExpressionDataModel::Nat(x) => Nat::valid(x),
            ExpressionDataModel::Payload(x) => Payload::valid(x),
            ExpressionDataModel::Range(x) => Range::valid(x),
            ExpressionDataModel::Reject(x) => Reject::valid(x),
        }
    }
}

/// What the fields of an expression of the given kind decode to.
pub open spec fn decode_data(kind: ExpressionKind, payload: Seq<u8>) -> Result<
    ExpressionDataModel,
    DecodeError,
> {
    match kind {
        ExpressionKind::Bitwise => match decode_model::<Bitwise>(payload) {
            Err(e) => Err(e),
            Ok(x) => Ok(ExpressionDataModel::Bitwise(x)),
        },
        ExpressionKind::Cmp => match decode_model::<Cmp>(payload) {
            Err(e) => Err(e),
            Ok(x) => Ok(ExpressionDataModel::Cmp(x)),
        },
        ExpressionKind::Counter => match decode_model::<Counter>(payload) {
            Err(e) => Err(e),
            Ok(x) => Ok(ExpressionDataModel::Counter(x)),
        },
        ExpressionKind::Conntrack => match decode_model::<Conntrack>(payload) {
            Err(e) => Err(e),
            Ok(x) => Ok(ExpressionDataModel::Conntrack(x)),
        },
        ExpressionKind::Immediate => match decode_model::<Immediate>(payload) {
            Err(e) => Err(e),
            Ok(x) => Ok(ExpressionDataModel::Immediate(x)),
        },
        ExpressionKind::Log => match decode_model::<Log>(payload) {
            Err(e) => Err(e),
            Ok(x) => Ok(ExpressionDataModel::Log(x)),
        },
        ExpressionKind::Lookup => match decode_model::<Lookup>(payload) {
            Err(e) => Err(e),
            Ok(x) => Ok(ExpressionDataModel::Lookup(x)),
        },
        ExpressionKind::Masquerade => match decode_model::<Masquerade>(payload) {
            Err(e) => Err(e),
            Ok(x) => Ok(ExpressionDataModel::Masquerade(x)),
        },
        ExpressionKind::Meta => match decode_model::<Meta>(payload) {
            Err(e) => Err(e),
            Ok(x) => Ok(ExpressionDataModel::Meta(x)),
        },
        ExpressionKind::Nat => match decode_model::<Nat>(payload) {
            Err(e) => Err(e),
            Ok(x) => Ok(ExpressionDataModel::Nat(x)),
        },
        ExpressionKind::Payload => match decode_model::<Payload>(payload) {
            Err(e) => Err(e),
            Ok(x) => Ok(ExpressionDataModel::Payload(x)),
        },
        ExpressionKind::Range => match decode_model::<Range>(payload) {
            Err(e) => Err(e),
            Ok(x) => Ok(ExpressionDataModel::Range(x)),
        },
        ExpressionKind::Reject => match decode_model::<Reject>(payload) {
            Err(e) => Err(e),
            Ok(x) => Ok(ExpressionDataModel::Reject(x)),
        },
    }
}

/// The fields of an expression are read back as they were written, when
/// they are read as fields of the expression's own kind.
pub proof fn lemma_data_roundtrip(d: ExpressionDataModel)
    requires
        d.valid(),
        attr_fits(fields_wire(d.fields())),
    ensures
        decode_data(d.kind(), fields_wire(d.fields())) == Ok::<ExpressionDataModel, DecodeError>(d),
{
    broadcast use group_field_roundtrip;

}

impl ExpressionData {
    /// The kind of this expression.
    pub fn get_kind(&self) -> (k: ExpressionKind)
        ensures
            k == self@.kind(),
    {
        match self {
            ExpressionData::Bitwise(x) => ExpressionKind::Bitwise,
            ExpressionData::Cmp(x) => ExpressionKind::Cmp,
            ExpressionData::Counter(x) => ExpressionKind::Counter,
            ExpressionData::Conntrack(x) => ExpressionKind::Conntrack,
            ExpressionData::Immediate(x) => ExpressionKind::Immediate,
            ExpressionData::Log(x) => ExpressionKind::Log,
            ExpressionData::Lookup(x) => ExpressionKind::Lookup,
            ExpressionData::Masquerade(x) => ExpressionKind::Masquerade,
            ExpressionData::Meta(x) => ExpressionKind::Meta,
            ExpressionData::Nat(x) => ExpressionKind::Nat,
            ExpressionData::Payload(x) => ExpressionKind::Payload,
            ExpressionData::Range(x) => ExpressionKind::Range,
            ExpressionData::Reject(x) => ExpressionKind::Reject,
        }
    }

    /// Whether two expressions are of the same kind and hold the same.
    pub fn equals(&self, other: &Self) -> (b: bool)
        ensures
            b == (self@ == other@),
    {
        match (self, other) {
            (ExpressionData::Bitwise(x), ExpressionData::Bitwise(y)) => x.equals(y),
            (ExpressionData::Cmp(x), ExpressionData::Cmp(y)) => x.equals(y),
            (ExpressionData::Counter(x), ExpressionData::Counter(y)) => x.equals(y),
            (ExpressionData::Conntrack(x), ExpressionData::Conntrack(y)) => x.equals(y),
            (ExpressionData::Immediate(x), ExpressionData::Immediate(y)) => x.equals(y),
            (ExpressionData::Log(x), ExpressionData::Log(y)) => x.equals(y),
            (ExpressionData::Lookup(x), ExpressionData::Lookup(y)) => x.equals(y),
            (ExpressionData::Masquerade(x), ExpressionData::Masquerade(y)) => x.equals(y),
            (ExpressionData::Meta(x), ExpressionData::Meta(y)) => x.equals(y),
            (ExpressionData::Nat(x), ExpressionData::Nat(y)) => x.equals(y),
            (ExpressionData::Payload(x), ExpressionData::Payload(y)) => x.equals(y),
            (ExpressionData::Range(x), ExpressionData::Range(y)) => x.equals(y),
            (ExpressionData::Reject(x), ExpressionData::Reject(y)) => x.equals(y),
            _ => false,
        }
    }

    /// Writes the fields of this expression as one nested attribute with the
    /// given code. Fails exactly when they are too long for one attribute.
    pub fn write_nested(&self, buf: &mut Vec<u8>, code: u16) -> (r: Result<(), BuilderError>)
        ensures
            r is Ok <==> attr_fits(fields_wire(self@.fields())),
            r is Ok ==> final(buf)@ == old(buf)@ + attr_bytes(
                nested_type(code),
                fields_wire(self@.fields()),
            ),
            r is Err ==> r == Err::<(), BuilderError>(BuilderError::AttributeTooLarge),
    {
        match self {
            ExpressionData::Bitwise(x) => write_nested(buf, code, x),
            ExpressionData::Cmp(x) => write_nested(buf, code, x),
            ExpressionData::Counter(x) => write_nested(buf, code, x),
            ExpressionData::Conntrack(x) => write_nested(buf, code, x),
            ExpressionData::Immediate(x) => write_nested(buf, code, x),
            ExpressionData::Log(x) => write_nested(buf, code, x),
            ExpressionData::Lookup(x) => write_nested(buf, code, x),
            ExpressionData::Masquerade(x) => write_nested(buf, code, x),
            ExpressionData::Meta(x) => write_nested(buf, code, x),
            ExpressionData::Nat(x) => write_nested(buf, code, x),
            ExpressionData::Payload(x) => write_nested(buf, code, x),
            ExpressionData::Range(x) => write_nested(buf, code, x),
            ExpressionData::Reject(x) => write_nested(buf, code, x),
        }
    }

    /// Reads the fields of an expression of the given kind.
    pub fn read(kind: ExpressionKind, payload: &[u8]) -> (r: Result<ExpressionData, DecodeError>)
        ensures
            match r {
                Ok(d) => decode_data(kind, payload@) == Ok::<ExpressionDataModel, DecodeError>(d@),
                Err(e) => decode_data(kind, payload@) == Err::<ExpressionDataModel, DecodeError>(
                    e,
                ),
            },
    {
        match kind {
            ExpressionKind::Bitwise => {
                let x = deserialize::<Bitwise>(payload)?;
                Ok(ExpressionData::Bitwise(x))
            },
            ExpressionKind::Cmp => {
                let x = deserialize::<Cmp>(payload)?;
                Ok(ExpressionData::Cmp(x))
            },
            ExpressionKind::Counter => {
                let x = deserialize::<Counter>(payload)?;
                Ok(ExpressionData::Counter(x))
            },
            ExpressionKind::Conntrack => {
                let x = deserialize::<Conntrack>(payload)?;
                Ok(ExpressionData::Conntrack(x))
            },
            ExpressionKind::Immediate => {
                let x = deserialize::<Immediate>(payload)?;
                Ok(ExpressionData::Immediate(x))
            },
            ExpressionKind::Log => {
                let x = deserialize::<Log>(payload)?;
                Ok(ExpressionData::Log(x))
            },
            ExpressionKind::Lookup => {
                let x = deserialize::<Lookup>(payload)?;
                Ok(ExpressionData::Lookup(x))
            },
            ExpressionKind::Masquerade => {
                let x = deserialize::<Masquerade>(payload)?;
                Ok(ExpressionData::Masquerade(x))
            },
            ExpressionKind::Meta => {
                let x = deserialize::<Meta>(payload)?;
                Ok(ExpressionData::Meta(x))
            },
            ExpressionKind::Nat => {
                let x = deserialize::<Nat>(payload)?;
                Ok(ExpressionData::Nat(x))
            },
            ExpressionKind::Payload => {
                let x = deserialize::<Payload>(payload)?;
                Ok(ExpressionData::Payload(x))
            },
            ExpressionKind::Range => {
                let x = deserialize::<Range>(payload)?;
                Ok(ExpressionData::Range(x))
            },
            ExpressionKind::Reject => {
                let x = deserialize::<Reject>(payload)?;
                Ok(ExpressionData::Reject(x))
            },
        }
    }
}

/// One entry of a rule's expression list: the name of the expression's kind
/// and the expression's own fields.
#[derive(Clone, Debug, PartialEq, Eq, Hash)]
pub struct RawExpression {
    /// Name of the expression's kind.
    pub name: Option<String>,
    /// The expression's own fields.
    pub data: Option<ExpressionData>,
}

/// What a [`RawExpression`] holds, as plain values.
pub struct RawExpressionModel {
    pub name: Option<Seq<char>>,
    pub data: Option<ExpressionDataModel>,
}

impl View for RawExpression {
    type V = RawExpressionModel;

    open spec fn view(&self) -> RawExpressionModel {
        RawExpressionModel { name: opt_model(self.name), data: opt_model(self.data) }
    }
}

/// The list entry that holds the expression `m` of type `E`: the name is
/// that of the expression's kind.
pub open spec fn raw_model_of<E: Expression>(m: E::V) -> RawExpressionModel {
    RawExpressionModel { name: Some(E::kind().name()), data: Some(E::wrap(m)) }
}

/// The data field of a list entry.
pub open spec fn data_field(data: Option<ExpressionDataModel>) -> Option<Attr> {
    match data {
        None => None,
        Some(d) => Some(Attr { ty: nested_type(NFTA_EXPR_DATA), payload: fields_wire(d.fields()) }),
    }
}

impl RawExpression {
    /// The list entry that holds `e`, under the name of its kind.
    pub fn new<E: Expression>(e: E) -> (r: Self)
        ensures
            r@ == raw_model_of::<E>(e@),
    {
        RawExpression { name: Some(E::get_name().to_owned()), data: Some(e.into_data()) }
    }

    /// The name of the expression's kind, if the entry has one.
    pub fn get_name(&self) -> (r: Option<&String>)
        ensures
            r is Some <==> self.name is Some,
            r is Some ==> *r.unwrap() == self.name.unwrap(),
    {
        self.name.as_ref()
    }

    /// The expression's own fields, if the entry has them.
    pub fn get_data(&self) -> (r: Option<&ExpressionData>)
        ensures
            r is Some <==> self.data is Some,
            r is Some ==> *r.unwrap() == self.data.unwrap(),
    {
        self.data.as_ref()
    }
}

impl NfNetlinkAttribute for RawExpression {
    open spec fn fields(m: RawExpressionModel) -> Fields {
        seq![string_field(NFTA_EXPR_NAME, m.name), data_field(m.data)]
    }

    open spec fn empty_model() -> RawExpressionModel {
        RawExpressionModel { name: None, data: None }
    }

    /// The name is taken in as it is. The data is read as the fields of the
    /// kind that the name stands for, so the name has to come first and has
    /// to stand for a kind.
    open spec fn apply_model(m: RawExpressionModel, code: u16, payload: Seq<u8>) -> Result<
        RawExpressionModel,
        DecodeError,
    > {
        if code == NFTA_EXPR_NAME {
            match decode_string(payload) {
                Err(e) => Err(e),
                Ok(v) => Ok(RawExpressionModel { name: Some(v), ..m }),
            }
        } else if code == NFTA_EXPR_DATA {
            match m.name {
                None => Err(DecodeError::MissingExpressionName),
                Some(n) => match ExpressionKind::of_name(n) {
                    None => Err(DecodeError::UnknownExpression),
                    Some(k) => match decode_data(k, payload) {
                        Err(e) => Err(e),
                        Ok(d) => Ok(RawExpressionModel { data: Some(d), ..m }),
                    },
                },
            }
        } else {
            Ok(m)
        }
    }

    fn empty() -> (r: Self) {
        RawExpression { name: None, data: None }
    }

    fn write_payload(&self, buf: &mut Vec<u8>) -> (r: Result<(), BuilderError>) {
        let ghost fields = Self::fields(self@);
        proof {
            lemma_wire_split(fields, 2);
            assert(buf@ + wire_upto(fields, 0) =~= buf@);
            assert(fit_upto(fields, 0));
        }
        match write_string_field(buf, NFTA_EXPR_NAME, &self.name) {
            Err(e) => {
                proof {
                    lemma_unfit_at(fields, 0, 0);
                }
                return Err(e);
            },
            Ok(()) => {},
        }
        assert(buf@ == old(buf)@ + wire_upto(fields, 1) && fit_upto(fields, 1));
        match &self.data {
            None => {
                assert(buf@ + Seq::<u8>::empty() =~= buf@);
            },
            Some(d) => match d.write_nested(buf, NFTA_EXPR_DATA) {
                Err(e) => {
                    proof {
                        lemma_unfit_at(fields, 0, 1);
                    }
                    return Err(e);
                },
                Ok(()) => {},
            },
        }
        assert(buf@ == old(buf)@ + wire_upto(fields, 2) && fit_upto(fields, 2));
        proof {
            lemma_fit_upto(fields, 2);
        }
        Ok(())
    }

    fn equals(&self, other: &Self) -> (b: bool) {
        let same_data = match (&self.data, &other.data) {
            (None, None) => true,
            (Some(x), Some(y)) => x.equals(y),
            _ => false,
        };
        opt_string_eq(&self.name, &other.name) && same_data
    }

    fn decode_attribute(self, code: u16, payload: &[u8]) -> (r: Result<Self, DecodeError>) {
        if code == NFTA_EXPR_NAME {
            let v = read_string(payload)?;
            Ok(RawExpression { name: Some(v), ..self })
        } else if code == NFTA_EXPR_DATA {
            let kind = match &self.name {
                None => {
                    return Err(DecodeError::MissingExpressionName);
                },
                Some(n) => match ExpressionKind::from_name(n.as_str()) {
                    None => {
                        return Err(DecodeError::UnknownExpression);
                    },
                    Some(k) => k,
                },
            };
            let d = ExpressionData::read(kind, payload)?;
            Ok(RawExpression { data: Some(d), ..self })
        } else {
            Ok(self)
        }
    }
}

impl Lossless for RawExpression {
    /// Fields of an expression are found again only under the name of their
    /// kind.
    open spec fn valid(m: RawExpressionModel) -> bool {
        m.data is Some ==> m.name == Some(m.data.unwrap().kind().name()) && m.data.unwrap().valid()
    }

    proof fn lemma_roundtrip(m: RawExpressionModel) {
        let fields = Self::fields(m);
        let s0 = Self::empty_model();
        lemma_decode_fields::<Self>(s0, fields, 0);
        let s1 = RawExpressionModel { name: m.name, ..s0 };
        assert(apply_from::<Self>(s0, fields, 0) == apply_from::<Self>(s1, fields, 1)) by {
            if m.name is Some {
                lemma_decode_string(m.name.unwrap());
            }
            lemma_apply_step::<Self>(s0, s1, fields, 0);
        }
        let s2 = RawExpressionModel { data: m.data, ..s1 };
        assert(apply_from::<Self>(s1, fields, 1) == apply_from::<Self>(s2, fields, 2)) by {
            if m.data is Some {
                let d = m.data.unwrap();
                lemma_fit_each(fields, 0, 1);
                lemma_nested_type_code(NFTA_EXPR_DATA);
                d.kind().lemma_name();
                lemma_data_roundtrip(d);
            }
            lemma_apply_step::<Self>(s1, s2, fields, 1);
        }
        assert(s2 == m);
    }
}

} // verus!
