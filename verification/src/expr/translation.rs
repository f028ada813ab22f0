//! The network address translation expression.

use vstd::prelude::*;
use crate::bytes::be32;
use crate::error::{BuilderError, DecodeError};
use crate::expr::kind::{Expression, ExpressionKind};
use crate::expr::raw::{ExpressionData, ExpressionDataModel};
use crate::expr::register::Register;
use crate::family::ProtocolFamily;
use crate::field::{
    WireEnum, decode_enum, enum_field, lemma_decode_enum, read_enum, write_enum_field,
};
use crate::schema::{
    Fields, Lossless, NfNetlinkAttribute, apply_from, fit_upto, lemma_apply_step,
    lemma_decode_fields, lemma_fit_upto, lemma_wire_split, wire_upto,
};
use crate::sys::{
    NFTA_NAT_FAMILY, NFTA_NAT_REG_ADDR_MIN, NFTA_NAT_REG_PROTO_MIN, NFTA_NAT_TYPE, NFT_NAT_DNAT,
    NFT_NAT_SNAT,
};

verus! {

/// Which address a NAT expression replaces.
#[derive(Clone, Copy, Debug, PartialEq, Eq, Hash, Structural)]
pub enum NatType {
    /// The source address.
    SNat,
    /// The destination address.
    DNat,
}

impl WireEnum for NatType {
    open spec fn code(self) -> u32 {
        match self {
            NatType::SNat => NFT_NAT_SNAT,
            NatType::DNat => NFT_NAT_DNAT,
        }
    }

    open spec fn of_code(c: u32) -> Option<Self> {
        if c == NFT_NAT_SNAT {
            Some(NatType::SNat)
        } else if c == NFT_NAT_DNAT {
            Some(NatType::DNat)
        } else {
            None
        }
    }

    fn to_code(self) -> (c: u32) {
        match self {
            NatType::SNat => NFT_NAT_SNAT,
            NatType::DNat => NFT_NAT_DNAT,
        }
    }

    fn from_code(c: u32) -> (r: Option<Self>) {
        if c == NFT_NAT_SNAT {
            Some(NatType::SNat)
        } else if c == NFT_NAT_DNAT {
            Some(NatType::DNat)
        } else {
            None
        }
    }

    proof fn lemma_code(self) {
    }
}

/// Replaces an address of the packet, and its port if asked to, by values
/// taken from registers.
#[derive(Clone, Copy, Debug, PartialEq, Eq, Hash, Structural)]
pub struct Nat {
    /// Which address is replaced.
    pub nat_type: Option<NatType>,
    /// The family of the new address.
    pub family: Option<ProtocolFamily>,
    /// The register that holds the new address.
    pub ip_register: Option<Register>,
    /// The register that holds the new port.
    pub port_register: Option<Register>,
}

impl View for Nat {
    type V = Nat;

    open spec fn view(&self) -> Nat {
        *self
    }
}

impl Nat {
    /// The same object with this field set: which address is replaced.
    pub fn with_nat_type(self, v: NatType) -> (r: Self)
        ensures
            r == (Nat { nat_type: Some(v), ..self }),
    {
        Nat { nat_type: Some(v), ..self }
    }

    /// Sets this field: which address is replaced.
    pub fn set_nat_type(&mut self, v: NatType)
        ensures
            *final(self) == (Nat { nat_type: Some(v), ..*old(self) }),
    {
        self.nat_type = Some(v);
    }

    /// This field, if it is present: which address is replaced.
    pub fn get_nat_type(&self) -> (r: Option<&NatType>)
        ensures
            r is Some <==> self.nat_type is Some,
            r is Some ==> *r.unwrap() == self.nat_type.unwrap(),
    {
        self.nat_type.as_ref()
    }

    /// The same object with this field set: the family of the new address.
    pub fn with_family(self, v: ProtocolFamily) -> (r: Self)
        ensures
            r == (Nat { family: Some(v), ..self }),
    {
        Nat { family: Some(v), ..self }
    }

    /// Sets this field: the family of the new address.
    pub fn set_family(&mut self, v: ProtocolFamily)
        ensures
            *final(self) == (Nat { family: Some(v), ..*old(self) }),
    {
        self.family = Some(v);
    }

    /// This field, if it is present: the family of the new address.
    pub fn get_family(&self) -> (r: Option<&ProtocolFamily>)
        ensures
            r is Some <==> self.family is Some,
            r is Some ==> *r.unwrap() == self.family.unwrap(),
    {
        self.family.as_ref()
    }

    /// The same object with this field set: the register that holds the new
    /// address.
    pub fn with_ip_register(self, v: Register) -> (r: Self)
        ensures
            r == (Nat { ip_register: Some(v), ..self }),
    {
        Nat { ip_register: Some(v), ..self }
    }

    /// Sets this field: the register that holds the new address.
    pub fn set_ip_register(&mut self, v: Register)
        ensures
            *final(self) == (Nat { ip_register: Some(v), ..*old(self) }),
    {
        self.ip_register = Some(v);
    }

    /// This field, if it is present: the register that holds the new address.
    pub fn get_ip_register(&self) -> (r: Option<&Register>)
        ensures
            r is Some <==> self.ip_register is Some,
            r is Some ==> *r.unwrap() == self.ip_register.unwrap(),
    {
        self.ip_register.as_ref()
    }

    /// The same object with this field set: the register that holds the new port.
    pub fn with_port_register(self, v: Register) -> (r: Self)
        ensures
            r == (Nat { port_register: Some(v), ..self }),
    {
        Nat { port_register: Some(v), ..self }
    }

    /// Sets this field: the register that holds the new port.
    pub fn set_port_register(&mut self, v: Register)
        ensures
            *final(self) == (Nat { port_register: Some(v), ..*old(self) }),
    {
        self.port_register = Some(v);
    }

    /// This field, if it is present: the register that holds the new port.
    pub fn get_port_register(&self) -> (r: Option<&Register>)
        ensures
            r is Some <==> self.port_register is Some,
            r is Some ==> *r.unwrap() == self.port_register.unwrap(),
    {
        self.port_register.as_ref()
    }
}

impl Default for Nat {
    fn default() -> (r: Self)
        ensures
            r@ == <Nat as NfNetlinkAttribute>::empty_model(),
    {
        <Nat as NfNetlinkAttribute>::empty()
    }
}

impl NfNetlinkAttribute for Nat {
    open spec fn fields(m: Nat) -> Fields {
        seq![
            enum_field(NFTA_NAT_TYPE, m.nat_type),
            enum_field(NFTA_NAT_FAMILY, m.family),
            enum_field(NFTA_NAT_REG_ADDR_MIN, m.ip_register),
            enum_field(NFTA_NAT_REG_PROTO_MIN, m.port_register),
        ]
    }

    open spec fn empty_model() -> Nat {
        Nat { nat_type: None, family: None, ip_register: None, port_register: None }
    }

    open spec fn apply_model(m: Nat, code: u16, payload: Seq<u8>) -> Result<
        Nat,
        DecodeError,
    > {
        if code == NFTA_NAT_TYPE {
            match decode_enum::<NatType>(payload) {
                Err(e) => Err(e),
                Ok(v) => Ok(Nat { nat_type: Some(v), ..m }),
            }
        } else if code == NFTA_NAT_FAMILY {
            match decode_enum::<ProtocolFamily>(payload) {
                Err(e) => Err(e),
                Ok(v) => Ok(Nat { family: Some(v), ..m }),
            }
        } else if code == NFTA_NAT_REG_ADDR_MIN {
            match decode_enum::<Register>(payload) {
                Err(e) => Err(e),
                Ok(v) => Ok(Nat { ip_register: Some(v), ..m }),
            }
        } else if code == NFTA_NAT_REG_PROTO_MIN {
            match decode_enum::<Register>(payload) {
                Err(e) => Err(e),
                Ok(v) => Ok(Nat { port_register: Some(v), ..m }),
            }
        } else {
            Ok(m)
        }
    }

    fn empty() -> (r: Self) {
        Nat { nat_type: None, family: None, ip_register: None, port_register: None }
    }

    fn write_payload(&self, buf: &mut Vec<u8>) -> (r: Result<(), BuilderError>) {
        let ghost fields = Self::fields(self@);
        proof {
            lemma_wire_split(fields, 4);
            assert(buf@ + wire_upto(fields, 0) =~= buf@);
            assert(fit_upto(fields, 0));
        }
        write_enum_field(buf, NFTA_NAT_TYPE, self.nat_type);
        assert(buf@ == old(buf)@ + wire_upto(fields, 1) && fit_upto(fields, 1));
        write_enum_field(buf, NFTA_NAT_FAMILY, self.family);
        assert(buf@ == old(buf)@ + wire_upto(fields, 2) && fit_upto(fields, 2));
        write_enum_field(buf, NFTA_NAT_REG_ADDR_MIN, self.ip_register);
        assert(buf@ == old(buf)@ + wire_upto(fields, 3) && fit_upto(fields, 3));
        write_enum_field(buf, NFTA_NAT_REG_PROTO_MIN, self.port_register);
        assert(buf@ == old(buf)@ + wire_upto(fields, 4) && fit_upto(fields, 4));
        proof {
            lemma_fit_upto(fields, 4);
        }
        Ok(())
    }

    fn equals(&self, other: &Self) -> (b: bool) {
        *self == *other
    }

    fn decode_attribute(self, code: u16, payload: &[u8]) -> (r: Result<Self, DecodeError>) {
        if code == NFTA_NAT_TYPE {
            let v = read_enum::<NatType>(payload)?;
            Ok(Nat { nat_type: Some(v), ..self })
        } else if code == NFTA_NAT_FAMILY {
            let v = read_enum::<ProtocolFamily>(payload)?;
            Ok(Nat { family: Some(v), ..self })
        } else if code == NFTA_NAT_REG_ADDR_MIN {
            let v = read_enum::<Register>(payload)?;
            Ok(Nat { ip_register: Some(v), ..self })
        } else if code == NFTA_NAT_REG_PROTO_MIN {
            let v = read_enum::<Register>(payload)?;
            Ok(Nat { port_register: Some(v), ..self })
        } else {
            Ok(self)
        }
    }
}

impl Lossless for Nat {
    open spec fn valid(m: Nat) -> bool {
        true
    }

    proof fn lemma_roundtrip(m: Nat) {
        let fields = Self::fields(m);
        let s0 = Self::empty_model();
        lemma_decode_fields::<Self>(s0, fields, 0);
        let s1 = Nat { nat_type: m.nat_type, ..s0 };
        assert(apply_from::<Self>(s0, fields, 0) == apply_from::<Self>(
            s1,
            fields,
            1,
        )) by {
            if m.nat_type is Some {
                let payload = be32(m.nat_type.unwrap().code());
                lemma_decode_enum::<NatType>(m.nat_type.unwrap());
                assert(Self::apply_model(s0, NFTA_NAT_TYPE, payload) == Ok::<
                    Nat,
                    DecodeError,
                >(s1));
            }
            lemma_apply_step::<Self>(s0, s1, fields, 0);
        }
        let s2 = Nat { family: m.family, ..s1 };
        assert(apply_from::<Self>(s1, fields, 1) == apply_from::<Self>(
            s2,
            fields,
            2,
        )) by {
            if m.family is Some {
                let payload = be32(m.family.unwrap().code());
                lemma_decode_enum::<ProtocolFamily>(m.family.unwrap());
                assert(Self::apply_model(s1, NFTA_NAT_FAMILY, payload) == Ok::<
                    Nat,
                    DecodeError,
                >(s2));
            }
            lemma_apply_step::<Self>(s1, s2, fields, 1);
        }
        let s3 = Nat { ip_register: m.ip_register, ..s2 };
        assert(apply_from::<Self>(s2, fields, 2) == apply_from::<Self>(
            s3,
            fields,
            3,
        )) by {
            if m.ip_register is Some {
                let payload = be32(m.ip_register.unwrap().code());
                lemma_decode_enum::<Register>(m.ip_register.unwrap());
                assert(Self::apply_model(s2, NFTA_NAT_REG_ADDR_MIN, payload) == Ok::<
                    Nat,
                    DecodeError,
                >(s3));
            }
            lemma_apply_step::<Self>(s2, s3, fields, 2);
        }
        let s4 = Nat { port_register: m.port_register, ..s3 };
        assert(apply_from::<Self>(s3, fields, 3) == apply_from::<Self>(
            s4,
            fields,
            4,
        )) by {
            if m.port_register is Some {
                let payload = be32(m.port_register.unwrap().code());
                lemma_decode_enum::<Register>(m.port_register.unwrap());
                assert(Self::apply_model(s3, NFTA_NAT_REG_PROTO_MIN, payload) == Ok::<
                    Nat,
                    DecodeError,
                >(s4));
            }
            lemma_apply_step::<Self>(s3, s4, fields, 3);
        }
        assert(s4 == m);
    }
}

impl Expression for Nat {
    open spec fn kind() -> ExpressionKind {
        ExpressionKind::Nat
    }

    open spec fn wrap(m: Nat) -> ExpressionDataModel {
        ExpressionDataModel::Nat(m)
    }

    fn get_kind() -> (k: ExpressionKind) {
        ExpressionKind::Nat
    }

    fn into_data(self) -> (d: ExpressionData) {
        ExpressionData::Nat(self)
    }
}

} // verus!
