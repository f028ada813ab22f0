//! The reject expression.

use vstd::prelude::*;
use crate::bytes::be32;
use crate::error::{BuilderError, DecodeError};
use crate::expr::kind::{Expression, ExpressionKind};
use crate::expr::raw::{ExpressionData, ExpressionDataModel};
use crate::field::{
    WireEnum, decode_enum, decode_enum8, enum8_field, enum8_payload, enum_field, lemma_decode_enum,
    lemma_decode_enum8, read_enum, read_enum8, write_enum8_field, write_enum_field,
};
use crate::schema::{
    Fields, Lossless, NfNetlinkAttribute, apply_from, fit_upto, lemma_apply_step,
    lemma_decode_fields, lemma_fit_upto, lemma_wire_split, wire_upto,
};
use crate::sys::{
    NFTA_REJECT_ICMP_CODE, NFTA_REJECT_TYPE, NFT_REJECT_ICMPX_UNREACH, NFT_REJECT_ICMP_UNREACH,
    NFT_REJECT_TCP_RST,
};

verus! {

/// How a rejected packet is answered.
#[derive(Clone, Copy, Debug, PartialEq, Eq, Hash, Structural)]
pub enum RejectType {
    /// With an ICMP unreachable message of the packet's own family.
    IcmpUnreach,
    /// With a TCP reset.
    TcpRst,
    /// With an ICMP unreachable message, its code given independently of the family.
    IcmpxUnreach,
}

impl WireEnum for RejectType {
    open spec fn code(self) -> u32 {
        match self {
            RejectType::IcmpUnreach => NFT_REJECT_ICMP_UNREACH,
            RejectType::TcpRst => NFT_REJECT_TCP_RST,
            RejectType::IcmpxUnreach => NFT_REJECT_ICMPX_UNREACH,
        }
    }

    open spec fn of_code(c: u32) -> Option<Self> {
        if c == NFT_REJECT_ICMP_UNREACH {
            Some(RejectType::IcmpUnreach)
        } else if c == NFT_REJECT_TCP_RST {
            Some(RejectType::TcpRst)
        } else if c == NFT_REJECT_ICMPX_UNREACH {
            Some(RejectType::IcmpxUnreach)
        } else {
            None
        }
    }

    fn to_code(self) -> (c: u32) {
        match self {
            RejectType::IcmpUnreach => NFT_REJECT_ICMP_UNREACH,
            RejectType::TcpRst => NFT_REJECT_TCP_RST,
            RejectType::IcmpxUnreach => NFT_REJECT_ICMPX_UNREACH,
        }
    }

    fn from_code(c: u32) -> (r: Option<Self>) {
        if c == NFT_REJECT_ICMP_UNREACH {
            Some(RejectType::IcmpUnreach)
        } else if c == NFT_REJECT_TCP_RST {
            Some(RejectType::TcpRst)
        } else if c == NFT_REJECT_ICMPX_UNREACH {
            Some(RejectType::IcmpxUnreach)
        } else {
            None
        }
    }

    proof fn lemma_code(self) {
    }
}

/// The reason that an ICMP unreachable message gives.
#[derive(Clone, Copy, Debug, PartialEq, Eq, Hash, Structural)]
pub enum IcmpCode {
    /// No route to the destination.
    NoRoute,
    /// The port is unreachable.
    PortUnreach,
    /// The host is unreachable.
    HostUnreach,
    /// The administrator forbids it.
    AdminProhibited,
}

impl WireEnum for IcmpCode {
    open spec fn code(self) -> u32 {
        match self {
            IcmpCode::NoRoute => 0,
            IcmpCode::PortUnreach => 1,
            IcmpCode::HostUnreach => 2,
            IcmpCode::AdminProhibited => 3,
        }
    }

    open spec fn of_code(c: u32) -> Option<Self> {
        if c == 0 {
            Some(IcmpCode::NoRoute)
        } else if c == 1 {
            Some(IcmpCode::PortUnreach)
        } else if c == 2 {
            Some(IcmpCode::HostUnreach)
        } else if c == 3 {
            Some(IcmpCode::AdminProhibited)
        } else {
            None
        }
    }

    fn to_code(self) -> (c: u32) {
        match self {
            IcmpCode::NoRoute => 0,
            IcmpCode::PortUnreach => 1,
            IcmpCode::HostUnreach => 2,
            IcmpCode::AdminProhibited => 3,
        }
    }

    fn from_code(c: u32) -> (r: Option<Self>) {
        if c == 0 {
            Some(IcmpCode::NoRoute)
        } else if c == 1 {
            Some(IcmpCode::PortUnreach)
        } else if c == 2 {
            Some(IcmpCode::HostUnreach)
        } else if c == 3 {
            Some(IcmpCode::AdminProhibited)
        } else {
            None
        }
    }

    proof fn lemma_code(self) {
    }
}

/// Drops the packet and tells its sender.
#[derive(Clone, Copy, Debug, PartialEq, Eq, Hash, Structural)]
pub struct Reject {
    /// How the sender is told.
    pub reject_type: Option<RejectType>,
    /// The reason given in an ICMP message.
    pub icmp_code: Option<IcmpCode>,
}

impl View for Reject {
    type V = Reject;

    open spec fn view(&self) -> Reject {
        *self
    }
}

impl Reject {
    /// The same object with this field set: how the sender is told.
    pub fn with_reject_type(self, v: RejectType) -> (r: Self)
        ensures
            r == (Reject { reject_type: Some(v), ..self }),
    {
        Reject { reject_type: Some(v), ..self }
    }

    /// Sets this field: how the sender is told.
    pub fn set_reject_type(&mut self, v: RejectType)
        ensures
            *final(self) == (Reject { reject_type: Some(v), ..*old(self) }),
    {
        self.reject_type = Some(v);
    }

    /// This field, if it is present: how the sender is told.
    pub fn get_reject_type(&self) -> (r: Option<&RejectType>)
        ensures
            r is Some <==> self.reject_type is Some,
            r is Some ==> *r.unwrap() == self.reject_type.unwrap(),
    {
        self.reject_type.as_ref()
    }

    /// The same object with this field set: the reason given in an ICMP message.
    pub fn with_icmp_code(self, v: IcmpCode) -> (r: Self)
        ensures
            r == (Reject { icmp_code: Some(v), ..self }),
    {
        Reject { icmp_code: Some(v), ..self }
    }

    /// Sets this field: the reason given in an ICMP message.
    pub fn set_icmp_code(&mut self, v: IcmpCode)
        ensures
            *final(self) == (Reject { icmp_code: Some(v), ..*old(self) }),
    {
        self.icmp_code = Some(v);
    }

    /// This field, if it is present: the reason given in an ICMP message.
    pub fn get_icmp_code(&self) -> (r: Option<&IcmpCode>)
        ensures
            r is Some <==> self.icmp_code is Some,
            r is Some ==> *r.unwrap() == self.icmp_code.unwrap(),
    {
        self.icmp_code.as_ref()
    }
}

impl Default for Reject {
    fn default() -> (r: Self)
        ensures
            r@ == <Reject as NfNetlinkAttribute>::empty_model(),
    {
        <Reject as NfNetlinkAttribute>::empty()
    }
}

impl NfNetlinkAttribute for Reject {
    open spec fn fields(m: Reject) -> Fields {
        seq![
            enum_field(NFTA_REJECT_TYPE, m.reject_type),
            enum8_field(NFTA_REJECT_ICMP_CODE, m.icmp_code),
        ]
    }

    open spec fn empty_model() -> Reject {
        Reject { reject_type: None, icmp_code: None }
    }

    open spec fn apply_model(m: Reject, code: u16, payload: Seq<u8>) -> Result<
        Reject,
        DecodeError,
    > {
        if code == NFTA_REJECT_TYPE {
            match decode_enum::<RejectType>(payload) {
                Err(e) => Err(e),
                Ok(v) => Ok(Reject { reject_type: Some(v), ..m }),
            }
        } else if code == NFTA_REJECT_ICMP_CODE {
            match decode_enum8::<IcmpCode>(payload) {
                Err(e) => Err(e),
                Ok(v) => Ok(Reject { icmp_code: Some(v), ..m }),
            }
        } else {
            Ok(m)
        }
    }

    fn empty() -> (r: Self) {
        Reject { reject_type: None, icmp_code: None }
    }

    fn write_payload(&self, buf: &mut Vec<u8>) -> (r: Result<(), BuilderError>) {
        let ghost fields = Self::fields(self@);
        proof {
            lemma_wire_split(fields, 2);
            assert(buf@ + wire_upto(fields, 0) =~= buf@);
            assert(fit_upto(fields, 0));
        }
        write_enum_field(buf, NFTA_REJECT_TYPE, self.reject_type);
        assert(buf@ == old(buf)@ + wire_upto(fields, 1) && fit_upto(fields, 1));
        write_enum8_field(buf, NFTA_REJECT_ICMP_CODE, self.icmp_code);
        assert(buf@ == old(buf)@ + wire_upto(fields, 2) && fit_upto(fields, 2));
        proof {
            lemma_fit_upto(fields, 2);
        }
        Ok(())
    }

    fn equals(&self, other: &Self) -> (b: bool) {
        *self == *other
    }

    fn decode_attribute(self, code: u16, payload: &[u8]) -> (r: Result<Self, DecodeError>) {
        if code == NFTA_REJECT_TYPE {
            let v = read_enum::<RejectType>(payload)?;
            Ok(Reject { reject_type: Some(v), ..self })
        } else if code == NFTA_REJECT_ICMP_CODE {
            let v = read_enum8::<IcmpCode>(payload)?;
            Ok(Reject { icmp_code: Some(v), ..self })
        } else {
            Ok(self)
        }
    }
}

impl Lossless for Reject {
    open spec fn valid(m: Reject) -> bool {
        true
    }

    proof fn lemma_roundtrip(m: Reject) {
        let fields = Self::fields(m);
        let s0 = Self::empty_model();
        lemma_decode_fields::<Self>(s0, fields, 0);
        let s1 = Reject { reject_type: m.reject_type, ..s0 };
        assert(apply_from::<Self>(s0, fields, 0) == apply_from::<Self>(
            s1,
            fields,
            1,
        )) by {
            if m.reject_type is Some {
                let payload = be32(m.reject_type.unwrap().code());
                lemma_decode_enum::<RejectType>(m.reject_type.unwrap());
                assert(Self::apply_model(s0, NFTA_REJECT_TYPE, payload) == Ok::<
                    Reject,
                    DecodeError,
                >(s1));
            }
            lemma_apply_step::<Self>(s0, s1, fields, 0);
        }
        let s2 = Reject { icmp_code: m.icmp_code, ..s1 };
        assert(apply_from::<Self>(s1, fields, 1) == apply_from::<Self>(
            s2,
            fields,
            2,
        )) by {
            if m.icmp_code is Some {
                let payload = enum8_payload(m.icmp_code.unwrap());
                lemma_decode_enum8::<IcmpCode>(m.icmp_code.unwrap());
                assert(Self::apply_model(s1, NFTA_REJECT_ICMP_CODE, payload) == Ok::<
                    Reject,
                    DecodeError,
                >(s2));
            }
            lemma_apply_step::<Self>(s1, s2, fields, 1);
        }
        assert(s2 == m);
    }
}

impl Expression for Reject {
    open spec fn kind() -> ExpressionKind {
        ExpressionKind::Reject
    }

    open spec fn wrap(m: Reject) -> ExpressionDataModel {
        ExpressionDataModel::Reject(m)
    }

    fn get_kind() -> (k: ExpressionKind) {
        ExpressionKind::Reject
    }

    fn into_data(self) -> (d: ExpressionData) {
        ExpressionData::Reject(self)
    }
}

} // verus!
