//! The meta expression.

use vstd::prelude::*;
use crate::bytes::be32;
use crate::error::{BuilderError, DecodeError};
use crate::expr::kind::{Expression, ExpressionKind};
use crate::expr::raw::{ExpressionData, ExpressionDataModel};
use crate::expr::register::Register;
use crate::field::{
    WireEnum, decode_enum, enum_field, lemma_decode_enum, read_enum, write_enum_field,
};
use crate::schema::{
    Fields, Lossless, NfNetlinkAttribute, apply_from, fit_upto, lemma_apply_step,
    lemma_decode_fields, lemma_fit_upto, lemma_wire_split, wire_upto,
};
use crate::sys::{
    NFTA_META_DREG, NFTA_META_KEY, NFTA_META_SREG, NFT_META_IIF, NFT_META_IIFNAME,
    NFT_META_L4PROTO, NFT_META_LEN, NFT_META_MARK, NFT_META_NFPROTO, NFT_META_OIF,
    NFT_META_OIFNAME, NFT_META_PRIORITY, NFT_META_PROTOCOL,
};

verus! {

/// What a meta expression reads of the packet's metadata.
#[derive(Clone, Copy, Debug, PartialEq, Eq, Hash, Structural)]
pub enum MetaType {
    /// The length of the packet.
    Len,
    /// The protocol of the packet, as the link layer gives it.
    Protocol,
    /// The priority of the packet.
    Priority,
    /// The mark of the packet.
    Mark,
    /// The index of the interface that the packet came in on.
    Iif,
    /// The index of the interface that the packet goes out on.
    Oif,
    /// The name of the interface that the packet came in on.
    IifName,
    /// The name of the interface that the packet goes out on.
    OifName,
    /// The address family of the hook.
    NfProto,
    /// The transport protocol of the packet.
    L4Proto,
}

impl WireEnum for MetaType {
    open spec fn code(self) -> u32 {
        match self {
            MetaType::Len => NFT_META_LEN,
            MetaType::Protocol => NFT_META_PROTOCOL,
            MetaType::Priority => NFT_META_PRIORITY,
            MetaType::Mark => NFT_META_MARK,
            MetaType::Iif => NFT_META_IIF,
            MetaType::Oif => NFT_META_OIF,
            MetaType::IifName => NFT_META_IIFNAME,
            MetaType::OifName => NFT_META_OIFNAME,
            MetaType::NfProto => NFT_META_NFPROTO,
            MetaType::L4Proto => NFT_META_L4PROTO,
        }
    }

    open spec fn of_code(c: u32) -> Option<Self> {
        if c == NFT_META_LEN {
            Some(MetaType::Len)
        } else if c == NFT_META_PROTOCOL {
            Some(MetaType::Protocol)
        } else if c == NFT_META_PRIORITY {
            Some(MetaType::Priority)
        } else if c == NFT_META_MARK {
            Some(MetaType::Mark)
        } else if c == NFT_META_IIF {
            Some(MetaType::Iif)
        } else if c == NFT_META_OIF {
            Some(MetaType::Oif)
        } else if c == NFT_META_IIFNAME {
            Some(MetaType::IifName)
        } else if c == NFT_META_OIFNAME {
            Some(MetaType::OifName)
        } else if c == NFT_META_NFPROTO {
            Some(MetaType::NfProto)
        } else if c == NFT_META_L4PROTO {
            Some(MetaType::L4Proto)
        } else {
            None
        }
    }

    fn to_code(self) -> (c: u32) {
        match self {
            MetaType::Len => NFT_META_LEN,
            MetaType::Protocol => NFT_META_PROTOCOL,
            MetaType::Priority => NFT_META_PRIORITY,
            MetaType::Mark => NFT_META_MARK,
            MetaType::Iif => NFT_META_IIF,
            MetaType::Oif => NFT_META_OIF,
            MetaType::IifName => NFT_META_IIFNAME,
            MetaType::OifName => NFT_META_OIFNAME,
            MetaType::NfProto => NFT_META_NFPROTO,
            MetaType::L4Proto => NFT_META_L4PROTO,
        }
    }

    fn from_code(c: u32) -> (r: Option<Self>) {
        if c == NFT_META_LEN {
            Some(MetaType::Len)
        } else if c == NFT_META_PROTOCOL {
            Some(MetaType::Protocol)
        } else if c == NFT_META_PRIORITY {
            Some(MetaType::Priority)
        } else if c == NFT_META_MARK {
            Some(MetaType::Mark)
        } else if c == NFT_META_IIF {
            Some(MetaType::Iif)
        } else if c == NFT_META_OIF {
            Some(MetaType::Oif)
        } else if c == NFT_META_IIFNAME {
            Some(MetaType::IifName)
        } else if c == NFT_META_OIFNAME {
            Some(MetaType::OifName)
        } else if c == NFT_META_NFPROTO {
            Some(MetaType::NfProto)
        } else if c == NFT_META_L4PROTO {
            Some(MetaType::L4Proto)
        } else {
            None
        }
    }

    proof fn lemma_code(self) {
    }
}

/// Loads a piece of the packet's metadata into a register, or sets it
/// from one.
#[derive(Clone, Copy, Debug, PartialEq, Eq, Hash, Structural)]
pub struct Meta {
    /// The piece of metadata.
    pub key: Option<MetaType>,
    /// The register that the metadata is written to.
    pub dreg: Option<Register>,
    /// The register that the metadata is set from.
    pub sreg: Option<Register>,
}

impl View for Meta {
    type V = Meta;

    open spec fn view(&self) -> Meta {
        *self
    }
}

impl Meta {
    /// The expression that loads `key` into the first data register.
    pub fn new(key: MetaType) -> (r: Self)
        ensures
            r == (Meta { key: Some(key), dreg: Some(Register::Reg1), sreg: None }),
    {
        Meta { key: Some(key), dreg: Some(Register::Reg1), sreg: None }
    }

    /// The same object with this field set: the piece of metadata.
    pub fn with_key(self, v: MetaType) -> (r: Self)
        ensures
            r == (Meta { key: Some(v), ..self }),
    {
        Meta { key: Some(v), ..self }
    }

    /// Sets this field: the piece of metadata.
    pub fn set_key(&mut self, v: MetaType)
        ensures
            *final(self) == (Meta { key: Some(v), ..*old(self) }),
    {
        self.key = Some(v);
    }

    /// This field, if it is present: the piece of metadata.
    pub fn get_key(&self) -> (r: Option<&MetaType>)
        ensures
            r is Some <==> self.key is Some,
            r is Some ==> *r.unwrap() == self.key.unwrap(),
    {
        self.key.as_ref()
    }

    /// The same object with this field set: the register that the metadata is
    /// written to.
    pub fn with_dreg(self, v: Register) -> (r: Self)
        ensures
            r == (Meta { dreg: Some(v), ..self }),
    {
        Meta { dreg: Some(v), ..self }
    }

    /// Sets this field: the register that the metadata is written to.
    pub fn set_dreg(&mut self, v: Register)
        ensures
            *final(self) == (Meta { dreg: Some(v), ..*old(self) }),
    {
        self.dreg = Some(v);
    }

    /// This field, if it is present: the register that the metadata is written
    /// to.
    pub fn get_dreg(&self) -> (r: Option<&Register>)
        ensures
            r is Some <==> self.dreg is Some,
            r is Some ==> *r.unwrap() == self.dreg.unwrap(),
    {
        self.dreg.as_ref()
    }

    /// The same object with this field set: the register that the metadata is set
    /// from.
    pub fn with_sreg(self, v: Register) -> (r: Self)
        ensures
            r == (Meta { sreg: Some(v), ..self }),
    {
        Meta { sreg: Some(v), ..self }
    }

    /// Sets this field: the register that the metadata is set from.
    pub fn set_sreg(&mut self, v: Register)
        ensures
            *final(self) == (Meta { sreg: Some(v), ..*old(self) }),
    {
        self.sreg = Some(v);
    }

    /// This field, if it is present: the register that the metadata is set from.
    pub fn get_sreg(&self) -> (r: Option<&Register>)
        ensures
            r is Some <==> self.sreg is Some,
            r is Some ==> *r.unwrap() == self.sreg.unwrap(),
    {
        self.sreg.as_ref()
    }
}

impl Default for Meta {
    fn default() -> (r: Self)
        ensures
            r@ == <Meta as NfNetlinkAttribute>::empty_model(),
    {
        <Meta as NfNetlinkAttribute>::empty()
    }
}

impl NfNetlinkAttribute for Meta {
    open spec fn fields(m: Meta) -> Fields {
        seq![
            enum_field(NFTA_META_KEY, m.key),
            enum_field(NFTA_META_DREG, m.dreg),
            enum_field(NFTA_META_SREG, m.sreg),
        ]
    }

    open spec fn empty_model() -> Meta {
        Meta { key: None, dreg: None, sreg: None }
    }

    open spec fn apply_model(m: Meta, code: u16, payload: Seq<u8>) -> Result<
        Meta,
        DecodeError,
    > {
        if code == NFTA_META_KEY {
            match decode_enum::<MetaType>(payload) {
                Err(e) => Err(e),
                Ok(v) => Ok(Meta { key: Some(v), ..m }),
            }
        } else if code == NFTA_META_DREG {
            match decode_enum::<Register>(payload) {
                Err(e) => Err(e),
                Ok(v) => Ok(Meta { dreg: Some(v), ..m }),
            }
        } else if code == NFTA_META_SREG {
            match decode_enum::<Register>(payload) {
                Err(e) => Err(e),
                Ok(v) => Ok(Meta { sreg: Some(v), ..m }),
            }
        } else {
            Ok(m)
        }
    }

    fn empty() -> (r: Self) {
        Meta { key: None, dreg: None, sreg: None }
    }

    fn write_payload(&self, buf: &mut Vec<u8>) -> (r: Result<(), BuilderError>) {
        let ghost fields = Self::fields(self@);
        proof {
            lemma_wire_split(fields, 3);
            assert(buf@ + wire_upto(fields, 0) =~= buf@);
            assert(fit_upto(fields, 0));
        }
        write_enum_field(buf, NFTA_META_KEY, self.key);
        assert(buf@ == old(buf)@ + wire_upto(fields, 1) && fit_upto(fields, 1));
        write_enum_field(buf, NFTA_META_DREG, self.dreg);
        assert(buf@ == old(buf)@ + wire_upto(fields, 2) && fit_upto(fields, 2));
        write_enum_field(buf, NFTA_META_SREG, self.sreg);
        assert(buf@ == old(buf)@ + wire_upto(fields, 3) && fit_upto(fields, 3));
        proof {
            lemma_fit_upto(fields, 3);
        }
        Ok(())
    }

    fn equals(&self, other: &Self) -> (b: bool) {
        *self == *other
    }

    fn decode_attribute(self, code: u16, payload: &[u8]) -> (r: Result<Self, DecodeError>) {
        if code == NFTA_META_KEY {
            let v = read_enum::<MetaType>(payload)?;
            Ok(Meta { key: Some(v), ..self })
        } else if code == NFTA_META_DREG {
            let v = read_enum::<Register>(payload)?;
            Ok(Meta { dreg: Some(v), ..self })
        } else if code == NFTA_META_SREG {
            let v = read_enum::<Register>(payload)?;
            Ok(Meta { sreg: Some(v), ..self })
        } else {
            Ok(self)
        }
    }
}

impl Lossless for Meta {
    open spec fn valid(m: Meta) -> bool {
        true
    }

    proof fn lemma_roundtrip(m: Meta) {
        let fields = Self::fields(m);
        let s0 = Self::empty_model();
        lemma_decode_fields::<Self>(s0, fields, 0);
        let s1 = Meta { key: m.key, ..s0 };
        assert(apply_from::<Self>(s0, fields, 0) == apply_from::<Self>(
            s1,
            fields,
            1,
        )) by {
            if m.key is Some {
                let payload = be32(m.key.unwrap().code());
                lemma_decode_enum::<MetaType>(m.key.unwrap());
                assert(Self::apply_model(s0, NFTA_META_KEY, payload) == Ok::<
                    Meta,
                    DecodeError,
                >(s1));
            }
            lemma_apply_step::<Self>(s0, s1, fields, 0);
        }
        let s2 = Meta { dreg: m.dreg, ..s1 };
        assert(apply_from::<Self>(s1, fields, 1) == apply_from::<Self>(
            s2,
            fields,
            2,
        )) by {
            if m.dreg is Some {
                let payload = be32(m.dreg.unwrap().code());
                lemma_decode_enum::<Register>(m.dreg.unwrap());
                assert(Self::apply_model(s1, NFTA_META_DREG, payload) == Ok::<
                    Meta,
                    DecodeError,
                >(s2));
            }
            lemma_apply_step::<Self>(s1, s2, fields, 1);
        }
        let s3 = Meta { sreg: m.sreg, ..s2 };
        assert(apply_from::<Self>(s2, fields, 2) == apply_from::<Self>(
            s3,
            fields,
            3,
        )) by {
            if m.sreg is Some {
                let payload = be32(m.sreg.unwrap().code());
                lemma_decode_enum::<Register>(m.sreg.unwrap());
                assert(Self::apply_model(s2, NFTA_META_SREG, payload) == Ok::<
                    Meta,
                    DecodeError,
                >(s3));
            }
            lemma_apply_step::<Self>(s2, s3, fields, 2);
        }
        assert(s3 == m);
    }
}

impl Expression for Meta {
    open spec fn kind() -> ExpressionKind {
        ExpressionKind::Meta
    }

    open spec fn wrap(m: Meta) -> ExpressionDataModel {
        ExpressionDataModel::Meta(m)
    }

    fn get_kind() -> (k: ExpressionKind) {
        ExpressionKind::Meta
    }

    fn into_data(self) -> (d: ExpressionData) {
        ExpressionData::Meta(self)
    }
}

} // verus!
