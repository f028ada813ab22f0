//! The connection-tracking expression.

use vstd::prelude::*;
use crate::bytes::be32;
use crate::error::{BuilderError, DecodeError};
use crate::expr::kind::{Expression, ExpressionKind};
use crate::expr::raw::{ExpressionData, ExpressionDataModel};
use crate::expr::register::Register;
use crate::field::{
    WireEnum, decode_enum, enum_field, lemma_decode_enum, read_enum, write_enum_field,
};
use crate::schema::{
    Fields, Lossless, NfNetlinkAttribute, apply_from, fit_upto, lemma_apply_step,
    lemma_decode_fields, lemma_fit_upto, lemma_wire_split, wire_upto,
};
use crate::sys::{
    NFTA_CT_DREG, NFTA_CT_KEY, NFT_CT_DIRECTION, NFT_CT_MARK, NFT_CT_STATE, NFT_CT_STATUS,
};

verus! {

/// What a connection-tracking expression reads of the connection.
#[derive(Clone, Copy, Debug, PartialEq, Eq, Hash, Structural)]
pub enum ConntrackKey {
    /// The state of the connection.
    State,
    /// The direction of the packet within the connection.
    Direction,
    /// The status of the connection.
    Status,
    /// The mark of the connection.
    Mark,
}

impl WireEnum for ConntrackKey {
    open spec fn code(self) -> u32 {
        match self {
            ConntrackKey::State => NFT_CT_STATE,
            ConntrackKey::Direction => NFT_CT_DIRECTION,
            ConntrackKey::Status => NFT_CT_STATUS,
            ConntrackKey::Mark => NFT_CT_MARK,
        }
    }

    open spec fn of_code(c: u32) -> Option<Self> {
        if c == NFT_CT_STATE {
            Some(ConntrackKey::State)
        } else if c == NFT_CT_DIRECTION {
            Some(ConntrackKey::Direction)
        } else if c == NFT_CT_STATUS {
            Some(ConntrackKey::Status)
        } else if c == NFT_CT_MARK {
            Some(ConntrackKey::Mark)
        } else {
            None
        }
    }

    fn to_code(self) -> (c: u32) {
        match self {
            ConntrackKey::State => NFT_CT_STATE,
            ConntrackKey::Direction => NFT_CT_DIRECTION,
            ConntrackKey::Status => NFT_CT_STATUS,
            ConntrackKey::Mark => NFT_CT_MARK,
        }
    }

    fn from_code(c: u32) -> (r: Option<Self>) {
        if c == NFT_CT_STATE {
            Some(ConntrackKey::State)
        } else if c == NFT_CT_DIRECTION {
            Some(ConntrackKey::Direction)
        } else if c == NFT_CT_STATUS {
            Some(ConntrackKey::Status)
        } else if c == NFT_CT_MARK {
            Some(ConntrackKey::Mark)
        } else {
            None
        }
    }

    proof fn lemma_code(self) {
    }
}

/// Loads a property of the packet's connection into a register.
#[derive(Clone, Copy, Debug, PartialEq, Eq, Hash, Structural)]
pub struct Conntrack {
    /// The property that is read.
    pub key: Option<ConntrackKey>,
    /// The register that the property is written to.
    pub dreg: Option<Register>,
}

impl View for Conntrack {
    type V = Conntrack;

    open spec fn view(&self) -> Conntrack {
        *self
    }
}

impl Conntrack {
    /// The expression that loads `key` into the first data register.
    pub fn new(key: ConntrackKey) -> (r: Self)
        ensures
            r == (Conntrack { key: Some(key), dreg: Some(Register::Reg1) }),
    {
        Conntrack { key: Some(key), dreg: Some(Register::Reg1) }
    }

    /// The same object with this field set: the property that is read.
    pub fn with_key(self, v: ConntrackKey) -> (r: Self)
        ensures
            r == (Conntrack { key: Some(v), ..self }),
    {
        Conntrack { key: Some(v), ..self }
    }

    /// Sets this field: the property that is read.
    pub fn set_key(&mut self, v: ConntrackKey)
        ensures
            *final(self) == (Conntrack { key: Some(v), ..*old(self) }),
    {
        self.key = Some(v);
    }

    /// This field, if it is present: the property that is read.
    pub fn get_key(&self) -> (r: Option<&ConntrackKey>)
        ensures
            r is Some <==> self.key is Some,
            r is Some ==> *r.unwrap() == self.key.unwrap(),
    {
        self.key.as_ref()
    }

    /// The same object with this field set: the register that the property is
    /// written to.
    pub fn with_dreg(self, v: Register) -> (r: Self)
        ensures
            r == (Conntrack { dreg: Some(v), ..self }),
    {
        Conntrack { dreg: Some(v), ..self }
    }

    /// Sets this field: the register that the property is written to.
    pub fn set_dreg(&mut self, v: Register)
        ensures
            *final(self) == (Conntrack { dreg: Some(v), ..*old(self) }),
    {
        self.dreg = Some(v);
    }

    /// This field, if it is present: the register that the property is written
    /// to.
    pub fn get_dreg(&self) -> (r: Option<&Register>)
        ensures
            r is Some <==> self.dreg is Some,
            r is Some ==> *r.unwrap() == self.dreg.unwrap(),
    {
        self.dreg.as_ref()
    }
}

impl Default for Conntrack {
    fn default() -> (r: Self)
        ensures
            r@ == <Conntrack as NfNetlinkAttribute>::empty_model(),
    {
        <Conntrack as NfNetlinkAttribute>::empty()
    }
}

impl NfNetlinkAttribute for Conntrack {
    open spec fn fields(m: Conntrack) -> Fields {
        seq![
            enum_field(NFTA_CT_KEY, m.key),
            enum_field(NFTA_CT_DREG, m.dreg),
        ]
    }

    open spec fn empty_model() -> Conntrack {
        Conntrack { key: None, dreg: None }
    }

    open spec fn apply_model(m: Conntrack, code: u16, payload: Seq<u8>) -> Result<
        Conntrack,
        DecodeError,
    > {
        if code == NFTA_CT_KEY {
            match decode_enum::<ConntrackKey>(payload) {
                Err(e) => Err(e),
                Ok(v) => Ok(Conntrack { key: Some(v), ..m }),
            }
        } else if code == NFTA_CT_DREG {
            match decode_enum::<Register>(payload) {
                Err(e) => Err(e),
                Ok(v) => Ok(Conntrack { dreg: Some(v), ..m }),
            }
        } else {
            Ok(m)
        }
    }

    fn empty() -> (r: Self) {
        Conntrack { key: None, dreg: None }
    }

    fn write_payload(&self, buf: &mut Vec<u8>) -> (r: Result<(), BuilderError>) {
        let ghost fields = Self::fields(self@);
        proof {
            lemma_wire_split(fields, 2);
            assert(buf@ + wire_upto(fields, 0) =~= buf@);
            assert(fit_upto(fields, 0));
        }
        write_enum_field(buf, NFTA_CT_KEY, self.key);
        assert(buf@ == old(buf)@ + wire_upto(fields, 1) && fit_upto(fields, 1));
        write_enum_field(buf, NFTA_CT_DREG, self.dreg);
        assert(buf@ == old(buf)@ + wire_upto(fields, 2) && fit_upto(fields, 2));
        proof {
            lemma_fit_upto(fields, 2);
        }
        Ok(())
    }

    fn equals(&self, other: &Self) -> (b: bool) {
        *self == *other
    }

    fn decode_attribute(self, code: u16, payload: &[u8]) -> (r: Result<Self, DecodeError>) {
        if code == NFTA_CT_KEY {
            let v = read_enum::<ConntrackKey>(payload)?;
            Ok(Conntrack { key: Some(v), ..self })
        } else if code == NFTA_CT_DREG {
            let v = read_enum::<Register>(payload)?;
            Ok(Conntrack { dreg: Some(v), ..self })
        } else {
            Ok(self)
        }
    }
}

impl Lossless for Conntrack {
    open spec fn valid(m: Conntrack) -> bool {
        true
    }

    proof fn lemma_roundtrip(m: Conntrack) {
        let fields = Self::fields(m);
        let s0 = Self::empty_model();
        lemma_decode_fields::<Self>(s0, fields, 0);
        let s1 = Conntrack { key: m.key, ..s0 };
        assert(apply_from::<Self>(s0, fields, 0) == apply_from::<Self>(
            s1,
            fields,
            1,
        )) by {
            if m.key is Some {
                let payload = be32(m.key.unwrap().code());
                lemma_decode_enum::<ConntrackKey>(m.key.unwrap());
                assert(Self::apply_model(s0, NFTA_CT_KEY, payload) == Ok::<
                    Conntrack,
                    DecodeError,
                >(s1));
            }
            lemma_apply_step::<Self>(s0, s1, fields, 0);
        }
        let s2 = Conntrack { dreg: m.dreg, ..s1 };
        assert(apply_from::<Self>(s1, fields, 1) == apply_from::<Self>(
            s2,
            fields,
            2,
        )) by {
            if m.dreg is Some {
                let payload = be32(m.dreg.unwrap().code());
                lemma_decode_enum::<Register>(m.dreg.unwrap());
                assert(Self::apply_model(s1, NFTA_CT_DREG, payload) == Ok::<
                    Conntrack,
                    DecodeError,
                >(s2));
            }
            lemma_apply_step::<Self>(s1, s2, fields, 1);
        }
        assert(s2 == m);
    }
}

impl Expression for Conntrack {
    open spec fn kind() -> ExpressionKind {
        ExpressionKind::Conntrack
    }

    open spec fn wrap(m: Conntrack) -> ExpressionDataModel {
        ExpressionDataModel::Conntrack(m)
    }

    fn get_kind() -> (k: ExpressionKind) {
        ExpressionKind::Conntrack
    }

    fn into_data(self) -> (d: ExpressionData) {
        ExpressionData::Conntrack(self)
    }
}

} // verus!
