//! The payload expression.

use vstd::prelude::*;
use crate::bytes::{be32, decode_be32, read_be32};
use crate::error::{BuilderError, DecodeError};
use crate::expr::kind::{Expression, ExpressionKind};
use crate::expr::raw::{ExpressionData, ExpressionDataModel};
use crate::expr::register::Register;
use crate::field::{
    WireEnum, be32_field, decode_enum, enum_field, lemma_decode_be32, lemma_decode_enum, read_enum,
    write_be32_field, write_enum_field,
};
use crate::schema::{
    Fields, Lossless, NfNetlinkAttribute, apply_from, fit_upto, lemma_apply_step,
    lemma_decode_fields, lemma_fit_upto, lemma_wire_split, wire_upto,
};
use crate::sys::{
    NFTA_PAYLOAD_BASE, NFTA_PAYLOAD_DREG, NFTA_PAYLOAD_LEN, NFTA_PAYLOAD_OFFSET,
    NFT_PAYLOAD_LL_HEADER, NFT_PAYLOAD_NETWORK_HEADER, NFT_PAYLOAD_TRANSPORT_HEADER,
};

verus! {

/// The header that a payload offset counts from.
#[derive(Clone, Copy, Debug, PartialEq, Eq, Hash, Structural)]
pub enum PayloadBase {
    /// The link layer header.
    LinkLayer,
    /// The network header.
    Network,
    /// The transport header.
    Transport,
}

impl WireEnum for PayloadBase {
    open spec fn code(self) -> u32 {
        match self {
            PayloadBase::LinkLayer => NFT_PAYLOAD_LL_HEADER,
            PayloadBase::Network => NFT_PAYLOAD_NETWORK_HEADER,
            PayloadBase::Transport => NFT_PAYLOAD_TRANSPORT_HEADER,
        }
    }

    open spec fn of_code(c: u32) -> Option<Self> {
        if c == NFT_PAYLOAD_LL_HEADER {
            Some(PayloadBase::LinkLayer)
        } else if c == NFT_PAYLOAD_NETWORK_HEADER {
            Some(PayloadBase::Network)
        } else if c == NFT_PAYLOAD_TRANSPORT_HEADER {
            Some(PayloadBase::Transport)
        } else {
            None
        }
    }

    fn to_code(self) -> (c: u32) {
        match self {
            PayloadBase::LinkLayer => NFT_PAYLOAD_LL_HEADER,
            PayloadBase::Network => NFT_PAYLOAD_NETWORK_HEADER,
            PayloadBase::Transport => NFT_PAYLOAD_TRANSPORT_HEADER,
        }
    }

    fn from_code(c: u32) -> (r: Option<Self>) {
        if c == NFT_PAYLOAD_LL_HEADER {
            Some(PayloadBase::LinkLayer)
        } else if c == NFT_PAYLOAD_NETWORK_HEADER {
            Some(PayloadBase::Network)
        } else if c == NFT_PAYLOAD_TRANSPORT_HEADER {
            Some(PayloadBase::Transport)
        } else {
            None
        }
    }

    proof fn lemma_code(self) {
    }
}

/// Loads bytes of the packet into a register.
#[derive(Clone, Copy, Debug, PartialEq, Eq, Hash, Structural)]
pub struct Payload {
    /// The register that the bytes are written to.
    pub dreg: Option<Register>,
    /// The header that the offset counts from.
    pub base: Option<PayloadBase>,
    /// Where the bytes start, counted from the header's start.
    pub offset: Option<u32>,
    /// Number of bytes.
    pub len: Option<u32>,
}

impl View for Payload {
    type V = Payload;

    open spec fn view(&self) -> Payload {
        *self
    }
}

impl Payload {
    /// The expression that loads `len` bytes at `offset` of the given header
    /// into the first data register.
    pub fn new(base: PayloadBase, offset: u32, len: u32) -> (r: Self)
        ensures
            r == (Payload {
                dreg: Some(Register::Reg1),
                base: Some(base),
                offset: Some(offset),
                len: Some(len),
            }),
    {
        Payload {
            dreg: Some(Register::Reg1),
            base: Some(base),
            offset: Some(offset),
            len: Some(len),
        }
    }

    /// The same object with this field set: the register that the bytes are
    /// written to.
    pub fn with_dreg(self, v: Register) -> (r: Self)
        ensures
            r == (Payload { dreg: Some(v), ..self }),
    {
        Payload { dreg: Some(v), ..self }
    }

    /// Sets this field: the register that the bytes are written to.
    pub fn set_dreg(&mut self, v: Register)
        ensures
            *final(self) == (Payload { dreg: Some(v), ..*old(self) }),
    {
        self.dreg = Some(v);
    }

    /// This field, if it is present: the register that the bytes are written to.
    pub fn get_dreg(&self) -> (r: Option<&Register>)
        ensures
            r is Some <==> self.dreg is Some,
            r is Some ==> *r.unwrap() == self.dreg.unwrap(),
    {
        self.dreg.as_ref()
    }

    /// The same object with this field set: the header that the offset counts
    /// from.
    pub fn with_base(self, v: PayloadBase) -> (r: Self)
        ensures
            r == (Payload { base: Some(v), ..self }),
    {
        Payload { base: Some(v), ..self }
    }

    /// Sets this field: the header that the offset counts from.
    pub fn set_base(&mut self, v: PayloadBase)
        ensures
            *final(self) == (Payload { base: Some(v), ..*old(self) }),
    {
        self.base = Some(v);
    }

    /// This field, if it is present: the header that the offset counts from.
    pub fn get_base(&self) -> (r: Option<&PayloadBase>)
        ensures
            r is Some <==> self.base is Some,
            r is Some ==> *r.unwrap() == self.base.unwrap(),
    {
        self.base.as_ref()
    }

    /// The same object with this field set: where the bytes start, counted from
    /// the header's start.
    pub fn with_offset(self, v: u32) -> (r: Self)
        ensures
            r == (Payload { offset: Some(v), ..self }),
    {
        Payload { offset: Some(v), ..self }
    }

    /// Sets this field: where the bytes start, counted from the header's start.
    pub fn set_offset(&mut self, v: u32)
        ensures
            *final(self) == (Payload { offset: Some(v), ..*old(self) }),
    {
        self.offset = Some(v);
    }

    /// This field, if it is present: where the bytes start, counted from the
    /// header's start.
    pub fn get_offset(&self) -> (r: Option<&u32>)
        ensures
            r is Some <==> self.offset is Some,
            r is Some ==> *r.unwrap() == self.offset.unwrap(),
    {
        self.offset.as_ref()
    }

    /// The same object with this field set: number of bytes.
    pub fn with_len(self, v: u32) -> (r: Self)
        ensures
            r == (Payload { len: Some(v), ..self }),
    {
        Payload { len: Some(v), ..self }
    }

    /// Sets this field: number of bytes.
    pub fn set_len(&mut self, v: u32)
        ensures
            *final(self) == (Payload { len: Some(v), ..*old(self) }),
    {
        self.len = Some(v);
    }

    /// This field, if it is present: number of bytes.
    pub fn get_len(&self) -> (r: Option<&u32>)
        ensures
            r is Some <==> self.len is Some,
            r is Some ==> *r.unwrap() == self.len.unwrap(),
    {
        self.len.as_ref()
    }
}

impl Default for Payload {
    fn default() -> (r: Self)
        ensures
            r@ == <Payload as NfNetlinkAttribute>::empty_model(),
    {
        <Payload as NfNetlinkAttribute>::empty()
    }
}

impl NfNetlinkAttribute for Payload {
    open spec fn fields(m: Payload) -> Fields {
        seq![
            enum_field(NFTA_PAYLOAD_DREG, m.dreg),
            enum_field(NFTA_PAYLOAD_BASE, m.base),
            be32_field(NFTA_PAYLOAD_OFFSET, m.offset),
            be32_field(NFTA_PAYLOAD_LEN, m.len),
        ]
    }

    open spec fn empty_model() -> Payload {
        Payload { dreg: None, base: None, offset: None, len: None }
    }

    open spec fn apply_model(m: Payload, code: u16, payload: Seq<u8>) -> Result<
        Payload,
        DecodeError,
    > {
        if code == NFTA_PAYLOAD_DREG {
            match decode_enum::<Register>(payload) {
                Err(e) => Err(e),
                Ok(v) => Ok(Payload { dreg: Some(v), ..m }),
            }
        } else if code == NFTA_PAYLOAD_BASE {
            match decode_enum::<PayloadBase>(payload) {
                Err(e) => Err(e),
                Ok(v) => Ok(Payload { base: Some(v), ..m }),
            }
        } else if code == NFTA_PAYLOAD_OFFSET {
            match decode_be32(payload) {
                Err(e) => Err(e),
                Ok(v) => Ok(Payload { offset: Some(v), ..m }),
            }
        } else if code == NFTA_PAYLOAD_LEN {
            match decode_be32(payload) {
                Err(e) => Err(e),
                Ok(v) => Ok(Payload { len: Some(v), ..m }),
            }
        } else {
            Ok(m)
        }
    }

    fn empty() -> (r: Self) {
        Payload { dreg: None, base: None, offset: None, len: None }
    }

    fn write_payload(&self, buf: &mut Vec<u8>) -> (r: Result<(), BuilderError>) {
        let ghost fields = Self::fields(self@);
        proof {
            lemma_wire_split(fields, 4);
            assert(buf@ + wire_upto(fields, 0) =~= buf@);
            assert(fit_upto(fields, 0));
        }
        write_enum_field(buf, NFTA_PAYLOAD_DREG, self.dreg);
        assert(buf@ == old(buf)@ + wire_upto(fields, 1) && fit_upto(fields, 1));
        write_enum_field(buf, NFTA_PAYLOAD_BASE, self.base);
        assert(buf@ == old(buf)@ + wire_upto(fields, 2) && fit_upto(fields, 2));
        write_be32_field(buf, NFTA_PAYLOAD_OFFSET, self.offset);
        assert(buf@ == old(buf)@ + wire_upto(fields, 3) && fit_upto(fields, 3));
        write_be32_field(buf, NFTA_PAYLOAD_LEN, self.len);
        assert(buf@ == old(buf)@ + wire_upto(fields, 4) && fit_upto(fields, 4));
        proof {
            lemma_fit_upto(fields, 4);
        }
        Ok(())
    }

    fn equals(&self, other: &Self) -> (b: bool) {
        *self == *other
    }

    fn decode_attribute(self, code: u16, payload: &[u8]) -> (r: Result<Self, DecodeError>) {
        if code == NFTA_PAYLOAD_DREG {
            let v = read_enum::<Register>(payload)?;
            Ok(Payload { dreg: Some(v), ..self })
        } else if code == NFTA_PAYLOAD_BASE {
            let v = read_enum::<PayloadBase>(payload)?;
            Ok(Payload { base: Some(v), ..self })
        } else if code == NFTA_PAYLOAD_OFFSET {
            let v = read_be32(payload)?;
            Ok(Payload { offset: Some(v), ..self })
        } else if code == NFTA_PAYLOAD_LEN {
            let v = read_be32(payload)?;
            Ok(Payload { len: Some(v), ..self })
        } else {
            Ok(self)
        }
    }
}

impl Lossless for Payload {
    open spec fn valid(m: Payload) -> bool {
        true
    }

    proof fn lemma_roundtrip(m: Payload) {
        let fields = Self::fields(m);
        let s0 = Self::empty_model();
        lemma_decode_fields::<Self>(s0, fields, 0);
        let s1 = Payload { dreg: m.dreg, ..s0 };
        assert(apply_from::<Self>(s0, fields, 0) == apply_from::<Self>(
            s1,
            fields,
            1,
        )) by {
            if m.dreg is Some {
                let payload = be32(m.dreg.unwrap().code());
                lemma_decode_enum::<Register>(m.dreg.unwrap());
                assert(Self::apply_model(s0, NFTA_PAYLOAD_DREG, payload) == Ok::<
                    Payload,
                    DecodeError,
                >(s1));
            }
            lemma_apply_step::<Self>(s0, s1, fields, 0);
        }
        let s2 = Payload { base: m.base, ..s1 };
        assert(apply_from::<Self>(s1, fields, 1) == apply_from::<Self>(
            s2,
            fields,
            2,
        )) by {
            if m.base is Some {
                let payload = be32(m.base.unwrap().code());
                lemma_decode_enum::<PayloadBase>(m.base.unwrap());
                assert(Self::apply_model(s1, NFTA_PAYLOAD_BASE, payload) == Ok::<
                    Payload,
                    DecodeError,
                >(s2));
            }
            lemma_apply_step::<Self>(s1, s2, fields, 1);
        }
        let s3 = Payload { offset: m.offset, ..s2 };
        assert(apply_from::<Self>(s2, fields, 2) == apply_from::<Self>(
            s3,
            fields,
            3,
        )) by {
            if m.offset is Some {
                let payload = be32(m.offset.unwrap());
                lemma_decode_be32(m.offset.unwrap());
                assert(Self::apply_model(s2, NFTA_PAYLOAD_OFFSET, payload) == Ok::<
                    Payload,
                    DecodeError,
                >(s3));
            }
            lemma_apply_step::<Self>(s2, s3, fields, 2);
        }
        let s4 = Payload { len: m.len, ..s3 };
        assert(apply_from::<Self>(s3, fields, 3) == apply_from::<Self>(
            s4,
            fields,
            4,
        )) by {
            if m.len is Some {
                let payload = be32(m.len.unwrap());
                lemma_decode_be32(m.len.unwrap());
                assert(Self::apply_model(s3, NFTA_PAYLOAD_LEN, payload) == Ok::<
                    Payload,
                    DecodeError,
                >(s4));
            }
            lemma_apply_step::<Self>(s3, s4, fields, 3);
        }
        assert(s4 == m);
    }
}

impl Expression for Payload {
    open spec fn kind() -> ExpressionKind {
        ExpressionKind::Payload
    }

    open spec fn wrap(m: Payload) -> ExpressionDataModel {
        ExpressionDataModel::Payload(m)
    }

    fn get_kind() -> (k: ExpressionKind) {
        ExpressionKind::Payload
    }

    fn into_data(self) -> (d: ExpressionData) {
        ExpressionData::Payload(self)
    }
}

} // verus!
