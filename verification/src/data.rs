//! The operands that expressions carry: raw bytes and verdicts.

use vstd::prelude::*;
use crate::attr::lemma_nested_type_code;
use crate::bytes::{be32, decode_be32, read_be32};
use crate::error::{BuilderError, DecodeError};
use crate::field::{
    WireEnum, be32_field, bytes_field, c_string, decode_enum, decode_string, enum_field,
    lemma_decode_be32, lemma_decode_enum, lemma_decode_nested, lemma_decode_string, model_fields,
    nested_field, opt_bytes_eq, opt_model, opt_object_eq, opt_string_eq, read_bytes, read_enum,
    read_string, string_field, write_be32_field, write_bytes_field, write_enum_field,
    write_nested_field, write_string_field,
};
use crate::schema::{
    Fields, Lossless, NfNetlinkAttribute, apply_from, decode_model, deserialize, fields_wire,
    fit_upto, lemma_apply_step, lemma_decode_fields, lemma_fit_each, lemma_fit_upto,
    lemma_unfit_at, lemma_wire_split, wire_upto,
};
use crate::sys::{
    NFTA_DATA_VALUE, NFTA_DATA_VERDICT, NFTA_VERDICT_CHAIN, NFTA_VERDICT_CHAIN_ID,
    NFTA_VERDICT_CODE, NFT_BREAK, NFT_CONTINUE, NFT_GOTO, NFT_JUMP, NFT_RETURN, NF_ACCEPT, NF_DROP,
    NF_QUEUE,
};

verus! {

/// What a verdict does with the packet, as the number the kernel knows it by.
#[derive(Clone, Copy, Debug, PartialEq, Eq, Hash, Structural)]
pub enum VerdictType {
    /// Drop the packet.
    Drop,
    /// Let the packet pass.
    Accept,
    /// Hand the packet to a queue in user space.
    Queue,
    /// Go on with the next expression.
    Continue,
    /// Leave the rule and go on with the next rule.
    Break,
    /// Go through another chain, then come back.
    Jump,
    /// Go on in another chain, without coming back.
    Goto,
    /// Go back to the chain that jumped here.
    Return,
}

impl WireEnum for VerdictType {
    open spec fn code(self) -> u32 {
        match self {
            VerdictType::Drop => NF_DROP,
            VerdictType::Accept => NF_ACCEPT,
            VerdictType::Queue => NF_QUEUE,
            VerdictType::Continue => NFT_CONTINUE,
            VerdictType::Break => NFT_BREAK,
            VerdictType::Jump => NFT_JUMP,
            VerdictType::Goto => NFT_GOTO,
            VerdictType::Return => NFT_RETURN,
        }
    }

    open spec fn of_code(c: u32) -> Option<Self> {
        if c == NF_DROP {
            Some(VerdictType::Drop)
        } else if c == NF_ACCEPT {
            Some(VerdictType::Accept)
        } else if c == NF_QUEUE {
            Some(VerdictType::Queue)
        } else if c == NFT_CONTINUE {
            Some(VerdictType::Continue)
        } else if c == NFT_BREAK {
            Some(VerdictType::Break)
        } else if c == NFT_JUMP {
            Some(VerdictType::Jump)
        } else if c == NFT_GOTO {
            Some(VerdictType::Goto)
        } else if c == NFT_RETURN {
            Some(VerdictType::Return)
        } else {
            None
        }
    }

    fn to_code(self) -> (c: u32) {
        match self {
            VerdictType::Drop => NF_DROP,
            VerdictType::Accept => NF_ACCEPT,
            VerdictType::Queue => NF_QUEUE,
            VerdictType::Continue => NFT_CONTINUE,
            VerdictType::Break => NFT_BREAK,
            VerdictType::Jump => NFT_JUMP,
            VerdictType::Goto => NFT_GOTO,
            VerdictType::Return => NFT_RETURN,
        }
    }

    fn from_code(c: u32) -> (r: Option<Self>) {
        if c == NF_DROP {
            Some(VerdictType::Drop)
        } else if c == NF_ACCEPT {
            Some(VerdictType::Accept)
        } else if c == NF_QUEUE {
            Some(VerdictType::Queue)
        } else if c == NFT_CONTINUE {
            Some(VerdictType::Continue)
        } else if c == NFT_BREAK {
            Some(VerdictType::Break)
        } else if c == NFT_JUMP {
            Some(VerdictType::Jump)
        } else if c == NFT_GOTO {
            Some(VerdictType::Goto)
        } else if c == NFT_RETURN {
            Some(VerdictType::Return)
        } else {
            None
        }
    }

    proof fn lemma_code(self) {
    }
}

/// A verdict as it stands in a data attribute: the verdict's number and,
/// for a jump or a goto, the chain to go to.
#[derive(Clone, Debug, PartialEq, Eq, Hash)]
pub struct VerdictAttribute {
    /// What the verdict does.
    pub code: Option<VerdictType>,
    /// Name of the chain to go to.
    pub chain: Option<String>,
    /// Id of the chain to go to, within a transaction.
    pub chain_id: Option<u32>,
}

/// What a [`VerdictAttribute`] holds, as plain values.
pub struct VerdictAttributeModel {
    pub code: Option<VerdictType>,
    pub chain: Option<Seq<char>>,
    pub chain_id: Option<u32>,
}

impl View for VerdictAttribute {
    type V = VerdictAttributeModel;

    open spec fn view(&self) -> VerdictAttributeModel {
        VerdictAttributeModel {
            code: self.code,
            chain: opt_model(self.chain),
            chain_id: self.chain_id,
        }
    }
}

impl VerdictAttribute {
    /// The same object with this field set: what the verdict does.
    pub fn with_code(self, v: VerdictType) -> (r: Self)
        ensures
            r@ == (VerdictAttributeModel { code: Some(v), ..self@ }),
    {
        VerdictAttribute { code: Some(v), ..self }
    }

    /// Sets this field: what the verdict does.
    pub fn set_code(&mut self, v: VerdictType)
        ensures
            final(self)@ == (VerdictAttributeModel { code: Some(v), ..old(self)@ }),
    {
        self.code = Some(v);
    }

    /// This field, if it is present: what the verdict does.
    pub fn get_code(&self) -> (r: Option<&VerdictType>)
        ensures
            r is Some <==> self.code is Some,
            r is Some ==> *r.unwrap() == self.code.unwrap(),
    {
        self.code.as_ref()
    }

    /// The same object with this field set: name of the chain to go to.
    pub fn with_chain(self, v: String) -> (r: Self)
        ensures
            r@ == (VerdictAttributeModel { chain: Some(v@), ..self@ }),
    {
        VerdictAttribute { chain: Some(v), ..self }
    }

    /// Sets this field: name of the chain to go to.
    pub fn set_chain(&mut self, v: String)
        ensures
            final(self)@ == (VerdictAttributeModel { chain: Some(v@), ..old(self)@ }),
    {
        self.chain = Some(v);
    }

    /// This field, if it is present: name of the chain to go to.
    pub fn get_chain(&self) -> (r: Option<&String>)
        ensures
            r is Some <==> self.chain is Some,
            r is Some ==> *r.unwrap() == self.chain.unwrap(),
    {
        self.chain.as_ref()
    }

    /// The same object with this field set: id of the chain to go to, within a
    /// transaction.
    pub fn with_chain_id(self, v: u32) -> (r: Self)
        ensures
            r@ == (VerdictAttributeModel { chain_id: Some(v), ..self@ }),
    {
        VerdictAttribute { chain_id: Some(v), ..self }
    }

    /// Sets this field: id of the chain to go to, within a transaction.
    pub fn set_chain_id(&mut self, v: u32)
        ensures
            final(self)@ == (VerdictAttributeModel { chain_id: Some(v), ..old(self)@ }),
    {
        self.chain_id = Some(v);
    }

    /// This field, if it is present: id of the chain to go to, within a
    /// transaction.
    pub fn get_chain_id(&self) -> (r: Option<&u32>)
        ensures
            r is Some <==> self.chain_id is Some,
            r is Some ==> *r.unwrap() == self.chain_id.unwrap(),
    {
        self.chain_id.as_ref()
    }
}

impl Default for VerdictAttribute {
    fn default() -> (r: Self)
        ensures
            r@ == <VerdictAttribute as NfNetlinkAttribute>::empty_model(),
    {
        <VerdictAttribute as NfNetlinkAttribute>::empty()
    }
}

impl NfNetlinkAttribute for VerdictAttribute {
    open spec fn fields(m: VerdictAttributeModel) -> Fields {
        seq![
            enum_field(NFTA_VERDICT_CODE, m.code),
            string_field(NFTA_VERDICT_CHAIN, m.chain),
            be32_field(NFTA_VERDICT_CHAIN_ID, m.chain_id),
        ]
    }

    open spec fn empty_model() -> VerdictAttributeModel {
        VerdictAttributeModel { code: None, chain: None, chain_id: None }
    }

    open spec fn apply_model(m: VerdictAttributeModel, code: u16, payload: Seq<u8>) -> Result<
        VerdictAttributeModel,
        DecodeError,
    > {
        if code == NFTA_VERDICT_CODE {
            match decode_enum::<VerdictType>(payload) {
                Err(e) => Err(e),
                Ok(v) => Ok(VerdictAttributeModel { code: Some(v), ..m }),
            }
        } else if code == NFTA_VERDICT_CHAIN {
            match decode_string(payload) {
                Err(e) => Err(e),
                Ok(v) => Ok(VerdictAttributeModel { chain: Some(v), ..m }),
            }
        } else if code == NFTA_VERDICT_CHAIN_ID {
            match decode_be32(payload) {
                Err(e) => Err(e),
                Ok(v) => Ok(VerdictAttributeModel { chain_id: Some(v), ..m }),
            }
        } else {
            Ok(m)
        }
    }

    fn empty() -> (r: Self) {
        VerdictAttribute { code: None, chain: None, chain_id: None }
    }

    fn write_payload(&self, buf: &mut Vec<u8>) -> (r: Result<(), BuilderError>) {
        let ghost fields = Self::fields(self@);
        proof {
            lemma_wire_split(fields, 3);
            assert(buf@ + wire_upto(fields, 0) =~= buf@);
            assert(fit_upto(fields, 0));
        }
        write_enum_field(buf, NFTA_VERDICT_CODE, self.code);
        assert(buf@ == old(buf)@ + wire_upto(fields, 1) && fit_upto(fields, 1));
        match write_string_field(buf, NFTA_VERDICT_CHAIN, &self.chain) {
            Err(e) => {
                proof {
                    lemma_unfit_at(fields, 0, 1);
                }
                return Err(e);
            },
            Ok(()) => {},
        }
        assert(buf@ == old(buf)@ + wire_upto(fields, 2) && fit_upto(fields, 2));
        write_be32_field(buf, NFTA_VERDICT_CHAIN_ID, self.chain_id);
        assert(buf@ == old(buf)@ + wire_upto(fields, 3) && fit_upto(fields, 3));
        proof {
            lemma_fit_upto(fields, 3);
        }
        Ok(())
    }

    fn equals(&self, other: &Self) -> (b: bool) {
        let same_code = match (self.code, other.code) {
            (None, None) => true,
            (Some(x), Some(y)) => x == y,
            _ => false,
        };
        let same_chain_id = match (self.chain_id, other.chain_id) {
            (None, None) => true,
            (Some(x), Some(y)) => x == y,
            _ => false,
        };
        same_code && opt_string_eq(&self.chain, &other.chain) && same_chain_id
    }

    fn decode_attribute(self, code: u16, payload: &[u8]) -> (r: Result<Self, DecodeError>) {
        if code == NFTA_VERDICT_CODE {
            let v = read_enum::<VerdictType>(payload)?;
            Ok(VerdictAttribute { code: Some(v), ..self })
        } else if code == NFTA_VERDICT_CHAIN {
            let v = read_string(payload)?;
            Ok(VerdictAttribute { chain: Some(v), ..self })
        } else if code == NFTA_VERDICT_CHAIN_ID {
            let v = read_be32(payload)?;
            Ok(VerdictAttribute { chain_id: Some(v), ..self })
        } else {
            Ok(self)
        }
    }
}

impl Lossless for VerdictAttribute {
    open spec fn valid(m: VerdictAttributeModel) -> bool {
        true
    }

    proof fn lemma_roundtrip(m: VerdictAttributeModel) {
        let fields = Self::fields(m);
        let s0 = Self::empty_model();
        lemma_decode_fields::<Self>(s0, fields, 0);
        let s1 = VerdictAttributeModel { code: m.code, ..s0 };
        assert(apply_from::<Self>(s0, fields, 0) == apply_from::<Self>(
            s1,
            fields,
            1,
        )) by {
            if m.code is Some {
                let payload = be32(m.code.unwrap().code());
                lemma_decode_enum::<VerdictType>(m.code.unwrap());
                assert(Self::apply_model(s0, NFTA_VERDICT_CODE, payload) == Ok::<
                    VerdictAttributeModel,
                    DecodeError,
                >(s1));
            }
            lemma_apply_step::<Self>(s0, s1, fields, 0);
        }
        let s2 = VerdictAttributeModel { chain: m.chain, ..s1 };
        assert(apply_from::<Self>(s1, fields, 1) == apply_from::<Self>(
            s2,
            fields,
            2,
        )) by {
            if m.chain is Some {
                let payload = c_string(m.chain.unwrap());
                lemma_decode_string(m.chain.unwrap());
                assert(Self::apply_model(s1, NFTA_VERDICT_CHAIN, payload) == Ok::<
                    VerdictAttributeModel,
                    DecodeError,
                >(s2));
            }
            lemma_apply_step::<Self>(s1, s2, fields, 1);
        }
        let s3 = VerdictAttributeModel { chain_id: m.chain_id, ..s2 };
        assert(apply_from::<Self>(s2, fields, 2) == apply_from::<Self>(
            s3,
            fields,
            3,
        )) by {
            if m.chain_id is Some {
                let payload = be32(m.chain_id.unwrap());
                lemma_decode_be32(m.chain_id.unwrap());
                assert(Self::apply_model(s2, NFTA_VERDICT_CHAIN_ID, payload) == Ok::<
                    VerdictAttributeModel,
                    DecodeError,
                >(s3));
            }
            lemma_apply_step::<Self>(s2, s3, fields, 2);
        }
        assert(s3 == m);
    }
}

/// The operand of an expression: raw bytes, or a verdict.
#[derive(Clone, Debug, PartialEq, Eq, Hash)]
pub struct NfNetlinkData {
    /// Raw bytes; their number is part of the value.
    pub value: Option<Vec<u8>>,
    /// A verdict.
    pub verdict: Option<VerdictAttribute>,
}

/// What a [`NfNetlinkData`] holds, as plain values.
pub struct NfNetlinkDataModel {
    pub value: Option<Seq<u8>>,
    pub verdict: Option<VerdictAttributeModel>,
}

impl View for NfNetlinkData {
    type V = NfNetlinkDataModel;

    open spec fn view(&self) -> NfNetlinkDataModel {
        NfNetlinkDataModel {
            value: opt_model(self.value),
            verdict: opt_model(self.verdict),
        }
    }
}

impl NfNetlinkData {
    /// The operand that holds exactly these bytes.
    pub fn from_value(value: Vec<u8>) -> (r: Self)
        ensures
            r@ == (NfNetlinkDataModel { value: Some(value@), verdict: None }),
    {
        NfNetlinkData { value: Some(value), verdict: None }
    }

    /// The same object with this field set: raw bytes; their number is part of
    /// the value.
    pub fn with_value(self, v: Vec<u8>) -> (r: Self)
        ensures
            r@ == (NfNetlinkDataModel { value: Some(v@), ..self@ }),
    {
        NfNetlinkData { value: Some(v), ..self }
    }

    /// Sets this field: raw bytes; their number is part of the value.
    pub fn set_value(&mut self, v: Vec<u8>)
        ensures
            final(self)@ == (NfNetlinkDataModel { value: Some(v@), ..old(self)@ }),
    {
        self.value = Some(v);
    }

    /// This field, if it is present: raw bytes; their number is part of the
    /// value.
    pub fn get_value(&self) -> (r: Option<&Vec<u8>>)
        ensures
            r is Some <==> self.value is Some,
            r is Some ==> *r.unwrap() == self.value.unwrap(),
    {
        self.value.as_ref()
    }

    /// The same object with this field set: a verdict.
    pub fn with_verdict(self, v: VerdictAttribute) -> (r: Self)
        ensures
            r@ == (NfNetlinkDataModel { verdict: Some(v@), ..self@ }),
    {
        NfNetlinkData { verdict: Some(v), ..self }
    }

    /// Sets this field: a verdict.
    pub fn set_verdict(&mut self, v: VerdictAttribute)
        ensures
            final(self)@ == (NfNetlinkDataModel { verdict: Some(v@), ..old(self)@ }),
    {
        self.verdict = Some(v);
    }

    /// This field, if it is present: a verdict.
    pub fn get_verdict(&self) -> (r: Option<&VerdictAttribute>)
        ensures
            r is Some <==> self.verdict is Some,
            r is Some ==> *r.unwrap() == self.verdict.unwrap(),
    {
        self.verdict.as_ref()
    }
}

impl Default for NfNetlinkData {
    fn default() -> (r: Self)
        ensures
            r@ == <NfNetlinkData as NfNetlinkAttribute>::empty_model(),
    {
        <NfNetlinkData as NfNetlinkAttribute>::empty()
    }
}

impl NfNetlinkAttribute for NfNetlinkData {
    open spec fn fields(m: NfNetlinkDataModel) -> Fields {
        seq![
            bytes_field(NFTA_DATA_VALUE, m.value),
            nested_field(NFTA_DATA_VERDICT, model_fields::<VerdictAttribute>(m.verdict)),
        ]
    }

    open spec fn empty_model() -> NfNetlinkDataModel {
        NfNetlinkDataModel { value: None, verdict: None }
    }

    open spec fn apply_model(m: NfNetlinkDataModel, code: u16, payload: Seq<u8>) -> Result<
        NfNetlinkDataModel,
        DecodeError,
    > {
        if code == NFTA_DATA_VALUE {
            Ok(NfNetlinkDataModel { value: Some(payload), ..m })
        } else if code == NFTA_DATA_VERDICT {
            match decode_model::<VerdictAttribute>(payload) {
                Err(e) => Err(e),
                Ok(v) => Ok(NfNetlinkDataModel { verdict: Some(v), ..m }),
            }
        } else {
            Ok(m)
        }
    }

    fn empty() -> (r: Self) {
        NfNetlinkData { value: None, verdict: None }
    }

    fn write_payload(&self, buf: &mut Vec<u8>) -> (r: Result<(), BuilderError>) {
        let ghost fields = Self::fields(self@);
        proof {
            lemma_wire_split(fields, 2);
            assert(buf@ + wire_upto(fields, 0) =~= buf@);
            assert(fit_upto(fields, 0));
        }
        match write_bytes_field(buf, NFTA_DATA_VALUE, &self.value) {
            Err(e) => {
                proof {
                    lemma_unfit_at(fields, 0, 0);
                }
                return Err(e);
            },
            Ok(()) => {},
        }
        assert(buf@ == old(buf)@ + wire_upto(fields, 1) && fit_upto(fields, 1));
        match write_nested_field(buf, NFTA_DATA_VERDICT, &self.verdict) {
            Err(e) => {
                proof {
                    lemma_unfit_at(fields, 0, 1);
                }
                return Err(e);
            },
            Ok(()) => {},
        }
        assert(buf@ == old(buf)@ + wire_upto(fields, 2) && fit_upto(fields, 2));
        proof {
            lemma_fit_upto(fields, 2);
        }
        Ok(())
    }

    fn equals(&self, other: &Self) -> (b: bool) {
        opt_bytes_eq(&self.value, &other.value) && opt_object_eq(&self.verdict, &other.verdict)
    }

    fn decode_attribute(self, code: u16, payload: &[u8]) -> (r: Result<Self, DecodeError>) {
        if code == NFTA_DATA_VALUE {
            let v = read_bytes(payload);
            Ok(NfNetlinkData { value: Some(v), ..self })
        } else if code == NFTA_DATA_VERDICT {
            let v = deserialize::<VerdictAttribute>(payload)?;
            Ok(NfNetlinkData { verdict: Some(v), ..self })
        } else {
            Ok(self)
        }
    }
}

impl Lossless for NfNetlinkData {
    open spec fn valid(m: NfNetlinkDataModel) -> bool {
        m.verdict is Some ==> VerdictAttribute::valid(m.verdict.unwrap())
    }

    proof fn lemma_roundtrip(m: NfNetlinkDataModel) {
        let fields = Self::fields(m);
        let s0 = Self::empty_model();
        lemma_decode_fields::<Self>(s0, fields, 0);
        let s1 = NfNetlinkDataModel { value: m.value, ..s0 };
        assert(apply_from::<Self>(s0, fields, 0) == apply_from::<Self>(
            s1,
            fields,
            1,
        )) by {
            if m.value is Some {
                let payload = m.value.unwrap();
                assert(Self::apply_model(s0, NFTA_DATA_VALUE, payload) == Ok::<
                    NfNetlinkDataModel,
                    DecodeError,
                >(s1));
            }
            lemma_apply_step::<Self>(s0, s1, fields, 0);
        }
        let s2 = NfNetlinkDataModel { verdict: m.verdict, ..s1 };
        assert(apply_from::<Self>(s1, fields, 1) == apply_from::<Self>(
            s2,
            fields,
            2,
        )) by {
            if m.verdict is Some {
                let payload = fields_wire(VerdictAttribute::fields(m.verdict.unwrap()));
                lemma_fit_each(fields, 0, 1);
                lemma_nested_type_code(NFTA_DATA_VERDICT);
                lemma_decode_nested::<VerdictAttribute>(m.verdict.unwrap());
                assert(Self::apply_model(s1, NFTA_DATA_VERDICT, payload) == Ok::<
                    NfNetlinkDataModel,
                    DecodeError,
                >(s2));
            }
            lemma_apply_step::<Self>(s1, s2, fields, 1);
        }
        assert(s2 == m);
    }
}

} // verus!
