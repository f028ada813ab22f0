//! The set lookup expression.

use vstd::prelude::*;
use crate::bytes::{be32, decode_be32, read_be32};
use crate::error::{BuilderError, DecodeError};
use crate::expr::kind::{Expression, ExpressionKind};
use crate::expr::raw::{ExpressionData, ExpressionDataModel};
use crate::expr::register::Register;
use crate::field::{
    WireEnum, be32_field, c_string, decode_enum, decode_string, enum_field, lemma_decode_be32,
    lemma_decode_enum, lemma_decode_string, opt_model, opt_string_eq, read_enum, read_string,
    string_field, write_be32_field, write_enum_field, write_string_field,
};
use crate::schema::{
    Fields, Lossless, NfNetlinkAttribute, apply_from, fit_upto, lemma_apply_step,
    lemma_decode_fields, lemma_fit_upto, lemma_unfit_at, lemma_wire_split, wire_upto,
};
use crate::set::NftSet;
use crate::sys::{NFTA_LOOKUP_SET, NFTA_LOOKUP_SET_ID, NFTA_LOOKUP_SREG};

verus! {

/// Looks the value of a register up in a named set. A packet goes on
/// through the rule only if the set holds the value.
#[derive(Clone, Debug, PartialEq, Eq, Hash)]
pub struct Lookup {
    /// The register whose value is looked up.
    pub sreg: Option<Register>,
    /// Name of the set.
    pub set: Option<String>,
    /// Id of the set, within a transaction.
    pub set_id: Option<u32>,
}

/// What a [`Lookup`] holds, as plain values.
pub struct LookupModel {
    pub sreg: Option<Register>,
    pub set: Option<Seq<char>>,
    pub set_id: Option<u32>,
}

impl View for Lookup {
    type V = LookupModel;

    open spec fn view(&self) -> LookupModel {
        LookupModel {
            sreg: self.sreg,
            set: opt_model(self.set),
            set_id: self.set_id,
        }
    }
}

impl Lookup {
    /// The lookup of the first data register in the given set, which is named
    /// by its name and its id.
    ///
    /// Fails exactly when the set has no name or no id yet.
    pub fn new(set: &NftSet) -> (r: Result<Self, BuilderError>)
        ensures
            r is Ok <==> set@.name is Some && set@.id is Some,
            r is Ok ==> r.unwrap()@ == (LookupModel {
                sreg: Some(Register::Reg1),
                set: set@.name,
                set_id: set@.id,
            }),
            r is Err ==> r == Err::<Self, BuilderError>(BuilderError::MissingSetInformationError),
    {
        let name = match &set.name {
            Some(n) => n.clone(),
            None => {
                return Err(BuilderError::MissingSetInformationError);
            },
        };
        let id = match set.id {
            Some(i) => i,
            None => {
                return Err(BuilderError::MissingSetInformationError);
            },
        };
        Ok(Lookup { sreg: Some(Register::Reg1), set: Some(name), set_id: Some(id) })
    }

    /// The same object with this field set: the register whose value is looked
    /// up.
    pub fn with_sreg(self, v: Register) -> (r: Self)
        ensures
            r@ == (LookupModel { sreg: Some(v), ..self@ }),
    {
        Lookup { sreg: Some(v), ..self }
    }

    /// Sets this field: the register whose value is looked up.
    pub fn set_sreg(&mut self, v: Register)
        ensures
            final(self)@ == (LookupModel { sreg: Some(v), ..old(self)@ }),
    {
        self.sreg = Some(v);
    }

    /// This field, if it is present: the register whose value is looked up.
    pub fn get_sreg(&self) -> (r: Option<&Register>)
        ensures
            r is Some <==> self.sreg is Some,
            r is Some ==> *r.unwrap() == self.sreg.unwrap(),
    {
        self.sreg.as_ref()
    }

    /// The same object with this field set: name of the set.
    pub fn with_set(self, v: String) -> (r: Self)
        ensures
            r@ == (LookupModel { set: Some(v@), ..self@ }),
    {
        Lookup { set: Some(v), ..self }
    }

    /// Sets this field: name of the set.
    pub fn set_set(&mut self, v: String)
        ensures
            final(self)@ == (LookupModel { set: Some(v@), ..old(self)@ }),
    {
        self.set = Some(v);
    }

    /// This field, if it is present: name of the set.
    pub fn get_set(&self) -> (r: Option<&String>)
        ensures
            r is Some <==> self.set is Some,
            r is Some ==> *r.unwrap() == self.set.unwrap(),
    {
        self.set.as_ref()
    }

    /// The same object with this field set: id of the set, within a transaction.
    pub fn with_set_id(self, v: u32) -> (r: Self)
        ensures
            r@ == (LookupModel { set_id: Some(v), ..self@ }),
    {
        Lookup { set_id: Some(v), ..self }
    }

    /// Sets this field: id of the set, within a transaction.
    pub fn set_set_id(&mut self, v: u32)
        ensures
            final(self)@ == (LookupModel { set_id: Some(v), ..old(self)@ }),
    {
        self.set_id = Some(v);
    }

    /// This field, if it is present: id of the set, within a transaction.
    pub fn get_set_id(&self) -> (r: Option<&u32>)
        ensures
            r is Some <==> self.set_id is Some,
            r is Some ==> *r.unwrap() == self.set_id.unwrap(),
    {
        self.set_id.as_ref()
    }
}

impl Default for Lookup {
    fn default() -> (r: Self)
        ensures
            r@ == <Lookup as NfNetlinkAttribute>::empty_model(),
    {
        <Lookup as NfNetlinkAttribute>::empty()
    }
}

impl NfNetlinkAttribute for Lookup {
    open spec fn fields(m: LookupModel) -> Fields {
        seq![
            enum_field(NFTA_LOOKUP_SREG, m.sreg),
            string_field(NFTA_LOOKUP_SET, m.set),
            be32_field(NFTA_LOOKUP_SET_ID, m.set_id),
        ]
    }

    open spec fn empty_model() -> LookupModel {
        LookupModel { sreg: None, set: None, set_id: None }
    }

    open spec fn apply_model(m: LookupModel, code: u16, payload: Seq<u8>) -> Result<
        LookupModel,
        DecodeError,
    > {
        if code == NFTA_LOOKUP_SREG {
            match decode_enum::<Register>(payload) {
                Err(e) => Err(e),
                Ok(v) => Ok(LookupModel { sreg: Some(v), ..m }),
            }
        } else if code == NFTA_LOOKUP_SET {
            match decode_string(payload) {
                Err(e) => Err(e),
                Ok(v) => Ok(LookupModel { set: Some(v), ..m }),
            }
        } else if code == NFTA_LOOKUP_SET_ID {
            match decode_be32(payload) {
                Err(e) => Err(e),
                Ok(v) => Ok(LookupModel { set_id: Some(v), ..m }),
            }
        } else {
            Ok(m)
        }
    }

    fn empty() -> (r: Self) {
        Lookup { sreg: None, set: None, set_id: None }
    }

    fn write_payload(&self, buf: &mut Vec<u8>) -> (r: Result<(), BuilderError>) {
        let ghost fields = Self::fields(self@);
        proof {
            lemma_wire_split(fields, 3);
            assert(buf@ + wire_upto(fields, 0) =~= buf@);
            assert(fit_upto(fields, 0));
        }
        write_enum_field(buf, NFTA_LOOKUP_SREG, self.sreg);
        assert(buf@ == old(buf)@ + wire_upto(fields, 1) && fit_upto(fields, 1));
        match write_string_field(buf, NFTA_LOOKUP_SET, &self.set) {
            Err(e) => {
                proof {
                    lemma_unfit_at(fields, 0, 1);
                }
                return Err(e);
            },
            Ok(()) => {},
        }
        assert(buf@ == old(buf)@ + wire_upto(fields, 2) && fit_upto(fields, 2));
        write_be32_field(buf, NFTA_LOOKUP_SET_ID, self.set_id);
        assert(buf@ == old(buf)@ + wire_upto(fields, 3) && fit_upto(fields, 3));
        proof {
            lemma_fit_upto(fields, 3);
        }
        Ok(())
    }

    fn equals(&self, other: &Self) -> (b: bool) {
        let same_sreg = match (self.sreg, other.sreg) {
            (None, None) => true,
            (Some(x), Some(y)) => x == y,
            _ => false,
        };
        let same_set_id = match (self.set_id, other.set_id) {
            (None, None) => true,
            (Some(x), Some(y)) => x == y,
            _ => false,
        };
        same_sreg && opt_string_eq(&self.set, &other.set) && same_set_id
    }

    fn decode_attribute(self, code: u16, payload: &[u8]) -> (r: Result<Self, DecodeError>) {
        if code == NFTA_LOOKUP_SREG {
            let v = read_enum::<Register>(payload)?;
            Ok(Lookup { sreg: Some(v), ..self })
        } else if code == NFTA_LOOKUP_SET {
            let v = read_string(payload)?;
            Ok(Lookup { set: Some(v), ..self })
        } else if code == NFTA_LOOKUP_SET_ID {
            let v = read_be32(payload)?;
            Ok(Lookup { set_id: Some(v), ..self })
        } else {
            Ok(self)
        }
    }
}

impl Lossless for Lookup {
    open spec fn valid(m: LookupModel) -> bool {
        true
    }

    proof fn lemma_roundtrip(m: LookupModel) {
        let fields = Self::fields(m);
        let s0 = Self::empty_model();
        lemma_decode_fields::<Self>(s0, fields, 0);
        let s1 = LookupModel { sreg: m.sreg, ..s0 };
        assert(apply_from::<Self>(s0, fields, 0) == apply_from::<Self>(
            s1,
            fields,
            1,
        )) by {
            if m.sreg is Some {
                let payload = be32(m.sreg.unwrap().code());
                lemma_decode_enum::<Register>(m.sreg.unwrap());
                assert(Self::apply_model(s0, NFTA_LOOKUP_SREG, payload) == Ok::<
                    LookupModel,
                    DecodeError,
                >(s1));
            }
            lemma_apply_step::<Self>(s0, s1, fields, 0);
        }
        let s2 = LookupModel { set: m.set, ..s1 };
        assert(apply_from::<Self>(s1, fields, 1) == apply_from::<Self>(
            s2,
            fields,
            2,
        )) by {
            if m.set is Some {
                let payload = c_string(m.set.unwrap());
                lemma_decode_string(m.set.unwrap());
                assert(Self::apply_model(s1, NFTA_LOOKUP_SET, payload) == Ok::<
                    LookupModel,
                    DecodeError,
                >(s2));
            }
            lemma_apply_step::<Self>(s1, s2, fields, 1);
        }
        let s3 = LookupModel { set_id: m.set_id, ..s2 };
        assert(apply_from::<Self>(s2, fields, 2) == apply_from::<Self>(
            s3,
            fields,
            3,
        )) by {
            if m.set_id is Some {
                let payload = be32(m.set_id.unwrap());
                lemma_decode_be32(m.set_id.unwrap());
                assert(Self::apply_model(s2, NFTA_LOOKUP_SET_ID, payload) == Ok::<
                    LookupModel,
                    DecodeError,
                >(s3));
            }
            lemma_apply_step::<Self>(s2, s3, fields, 2);
        }
        assert(s3 == m);
    }
}

impl Expression for Lookup {
    open spec fn kind() -> ExpressionKind {
        ExpressionKind::Lookup
    }

    open spec fn wrap(m: LookupModel) -> ExpressionDataModel {
        ExpressionDataModel::Lookup(m)
    }

    fn get_kind() -> (k: ExpressionKind) {
        ExpressionKind::Lookup
    }

    fn into_data(self) -> (d: ExpressionData) {
        ExpressionData::Lookup(self)
    }
}

} // verus!
