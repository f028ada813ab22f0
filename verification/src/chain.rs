//! Chains, and the hooks that they are run from.

use vstd::prelude::*;
use crate::attr::lemma_nested_type_code;
use crate::bytes::{be32, be64, decode_be32, decode_be64, read_be32, read_be64};
use crate::error::{BuilderError, DecodeError};
use crate::family::ProtocolFamily;
use crate::field::{
    WireEnum, be32_field, be64_field, c_string, decode_enum, decode_string, enum_field,
    lemma_decode_be32, lemma_decode_be64, lemma_decode_enum, lemma_decode_nested,
    lemma_decode_string, model_fields, nested_field, opt_model, opt_object_eq, opt_string_eq,
    read_enum, read_string, string_field, write_be32_field, write_be64_field, write_enum_field,
    write_nested_field, write_string_field,
};
use crate::nlmsg::NfNetlinkObject;
use crate::query::{
    Error, QueryModel, QuerySession, QueryState, dump_request, filter_error, filter_fits,
};
use crate::schema::{
    Fields, Lossless, NfNetlinkAttribute, apply_from, decode_model, deserialize, fields_wire,
    fit_upto, lemma_apply_step, lemma_decode_fields, lemma_fit_each, lemma_fit_upto,
    lemma_unfit_at, lemma_wire_split, wire_upto,
};
use crate::sys::{
    NFTA_CHAIN_HANDLE, NFTA_CHAIN_HOOK, NFTA_CHAIN_NAME, NFTA_CHAIN_POLICY, NFTA_CHAIN_TABLE,
    NFTA_HOOK_HOOKNUM, NFTA_HOOK_PRIORITY, NFT_MSG_DELCHAIN, NFT_MSG_GETCHAIN, NFT_MSG_NEWCHAIN,
    NF_ACCEPT, NF_DROP, NF_INET_FORWARD, NF_INET_LOCAL_IN, NF_INET_LOCAL_OUT, NF_INET_POST_ROUTING,
    NF_INET_PRE_ROUTING, NLM_F_CREATE,
};
use crate::table::{Table, TableModel};

verus! {

/// The point on a packet's way through the network stack where a chain is run.
#[derive(Clone, Copy, Debug, PartialEq, Eq, Hash, Structural)]
pub enum HookClass {
    /// Before the routing decision.
    PreRouting,
    /// On the way to a local process.
    In,
    /// On the way through to another host.
    Forward,
    /// On the way from a local process.
    Out,
    /// After the routing decision.
    PostRouting,
}

impl WireEnum for HookClass {
    open spec fn code(self) -> u32 {
        match self {
            HookClass::PreRouting => NF_INET_PRE_ROUTING,
            HookClass::In => NF_INET_LOCAL_IN,
            HookClass::Forward => NF_INET_FORWARD,
            HookClass::Out => NF_INET_LOCAL_OUT,
            HookClass::PostRouting => NF_INET_POST_ROUTING,
        }
    }

    open spec fn of_code(c: u32) -> Option<Self> {
        if c == NF_INET_PRE_ROUTING {
            Some(HookClass::PreRouting)
        } else if c == NF_INET_LOCAL_IN {
            Some(HookClass::In)
        } else if c == NF_INET_FORWARD {
            Some(HookClass::Forward)
        } else if c == NF_INET_LOCAL_OUT {
            Some(HookClass::Out)
        } else if c == NF_INET_POST_ROUTING {
            Some(HookClass::PostRouting)
        } else {
            None
        }
    }

    fn to_code(self) -> (c: u32) {
        match self {
            HookClass::PreRouting => NF_INET_PRE_ROUTING,
            HookClass::In => NF_INET_LOCAL_IN,
            HookClass::Forward => NF_INET_FORWARD,
            HookClass::Out => NF_INET_LOCAL_OUT,
            HookClass::PostRouting => NF_INET_POST_ROUTING,
        }
    }

    fn from_code(c: u32) -> (r: Option<Self>) {
        if c == NF_INET_PRE_ROUTING {
            Some(HookClass::PreRouting)
        } else if c == NF_INET_LOCAL_IN {
            Some(HookClass::In)
        } else if c == NF_INET_FORWARD {
            Some(HookClass::Forward)
        } else if c == NF_INET_LOCAL_OUT {
            Some(HookClass::Out)
        } else if c == NF_INET_POST_ROUTING {
            Some(HookClass::PostRouting)
        } else {
            None
        }
    }

    proof fn lemma_code(self) {
    }
}

/// What a chain does with a packet that no rule has decided on.
#[derive(Clone, Copy, Debug, PartialEq, Eq, Hash, Structural)]
pub enum ChainPolicy {
    /// Drop the packet.
    Drop,
    /// Let the packet pass.
    Accept,
}

impl WireEnum for ChainPolicy {
    open spec fn code(self) -> u32 {
        match self {
            ChainPolicy::Drop => NF_DROP,
            ChainPolicy::Accept => NF_ACCEPT,
        }
    }

    open spec fn of_code(c: u32) -> Option<Self> {
        if c == NF_DROP {
            Some(ChainPolicy::Drop)
        } else if c == NF_ACCEPT {
            Some(ChainPolicy::Accept)
        } else {
            None
        }
    }

    fn to_code(self) -> (c: u32) {
        match self {
            ChainPolicy::Drop => NF_DROP,
            ChainPolicy::Accept => NF_ACCEPT,
        }
    }

    fn from_code(c: u32) -> (r: Option<Self>) {
        if c == NF_DROP {
            Some(ChainPolicy::Drop)
        } else if c == NF_ACCEPT {
            Some(ChainPolicy::Accept)
        } else {
            None
        }
    }

    proof fn lemma_code(self) {
    }
}

/// Where and when a chain is run: the hook point, and the priority among
/// the chains at that point.
#[derive(Clone, Copy, Debug, PartialEq, Eq, Hash, Structural)]
pub struct Hook {
    /// The hook point.
    pub class: Option<HookClass>,
    /// The priority; chains with a lower one run first.
    pub priority: Option<u32>,
}

impl View for Hook {
    type V = Hook;

    open spec fn view(&self) -> Hook {
        *self
    }
}

impl Hook {
    /// The hook at the given point with the given priority.
    pub fn new(class: HookClass, priority: u32) -> (r: Self)
        ensures
            r == (Hook { class: Some(class), priority: Some(priority) }),
    {
        Hook { class: Some(class), priority: Some(priority) }
    }

    /// The same object with this field set: the hook point.
    pub fn with_class(self, v: HookClass) -> (r: Self)
        ensures
            r == (Hook { class: Some(v), ..self }),
    {
        Hook { class: Some(v), ..self }
    }

    /// Sets this field: the hook point.
    pub fn set_class(&mut self, v: HookClass)
        ensures
            *final(self) == (Hook { class: Some(v), ..*old(self) }),
    {
        self.class = Some(v);
    }

    /// This field, if it is present: the hook point.
    pub fn get_class(&self) -> (r: Option<&HookClass>)
        ensures
            r is Some <==> self.class is Some,
            r is Some ==> *r.unwrap() == self.class.unwrap(),
    {
        self.class.as_ref()
    }

    /// The same object with this field set: the priority; chains with a lower one
    /// run first.
    pub fn with_priority(self, v: u32) -> (r: Self)
        ensures
            r == (Hook { priority: Some(v), ..self }),
    {
        Hook { priority: Some(v), ..self }
    }

    /// Sets this field: the priority; chains with a lower one run first.
    pub fn set_priority(&mut self, v: u32)
        ensures
            *final(self) == (Hook { priority: Some(v), ..*old(self) }),
    {
        self.priority = Some(v);
    }

    /// This field, if it is present: the priority; chains with a lower one run
    /// first.
    pub fn get_priority(&self) -> (r: Option<&u32>)
        ensures
            r is Some <==> self.priority is Some,
            r is Some ==> *r.unwrap() == self.priority.unwrap(),
    {
        self.priority.as_ref()
    }
}

impl Default for Hook {
    fn default() -> (r: Self)
        ensures
            r@ == <Hook as NfNetlinkAttribute>::empty_model(),
    {
        <Hook as NfNetlinkAttribute>::empty()
    }
}

impl NfNetlinkAttribute for Hook {
    open spec fn fields(m: Hook) -> Fields {
        seq![
            enum_field(NFTA_HOOK_HOOKNUM, m.class),
            be32_field(NFTA_HOOK_PRIORITY, m.priority),
        ]
    }

    open spec fn empty_model() -> Hook {
        Hook { class: None, priority: None }
    }

    open spec fn apply_model(m: Hook, code: u16, payload: Seq<u8>) -> Result<
        Hook,
        DecodeError,
    > {
        if code == NFTA_HOOK_HOOKNUM {
            match decode_enum::<HookClass>(payload) {
                Err(e) => Err(e),
                Ok(v) => Ok(Hook { class: Some(v), ..m }),
            }
        } else if code == NFTA_HOOK_PRIORITY {
            match decode_be32(payload) {
                Err(e) => Err(e),
                Ok(v) => Ok(Hook { priority: Some(v), ..m }),
            }
        } else {
            Ok(m)
        }
    }

    fn empty() -> (r: Self) {
        Hook { class: None, priority: None }
    }

    fn write_payload(&self, buf: &mut Vec<u8>) -> (r: Result<(), BuilderError>) {
        let ghost fields = Self::fields(self@);
        proof {
            lemma_wire_split(fields, 2);
            assert(buf@ + wire_upto(fields, 0) =~= buf@);
            assert(fit_upto(fields, 0));
        }
        write_enum_field(buf, NFTA_HOOK_HOOKNUM, self.class);
        assert(buf@ == old(buf)@ + wire_upto(fields, 1) && fit_upto(fields, 1));
        write_be32_field(buf, NFTA_HOOK_PRIORITY, self.priority);
        assert(buf@ == old(buf)@ + wire_upto(fields, 2) && fit_upto(fields, 2));
        proof {
            lemma_fit_upto(fields, 2);
        }
        Ok(())
    }

    fn equals(&self, other: &Self) -> (b: bool) {
        *self == *other
    }

    fn decode_attribute(self, code: u16, payload: &[u8]) -> (r: Result<Self, DecodeError>) {
        if code == NFTA_HOOK_HOOKNUM {
            let v = read_enum::<HookClass>(payload)?;
            Ok(Hook { class: Some(v), ..self })
        } else if code == NFTA_HOOK_PRIORITY {
            let v = read_be32(payload)?;
            Ok(Hook { priority: Some(v), ..self })
        } else {
            Ok(self)
        }
    }
}

impl Lossless for Hook {
    open spec fn valid(m: Hook) -> bool {
        true
    }

    proof fn lemma_roundtrip(m: Hook) {
        let fields = Self::fields(m);
        let s0 = Self::empty_model();
        lemma_decode_fields::<Self>(s0, fields, 0);
        let s1 = Hook { class: m.class, ..s0 };
        assert(apply_from::<Self>(s0, fields, 0) == apply_from::<Self>(
            s1,
            fields,
            1,
        )) by {
            if m.class is Some {
                let payload = be32(m.class.unwrap().code());
                lemma_decode_enum::<HookClass>(m.class.unwrap());
                assert(Self::apply_model(s0, NFTA_HOOK_HOOKNUM, payload) == Ok::<
                    Hook,
                    DecodeError,
                >(s1));
            }
            lemma_apply_step::<Self>(s0, s1, fields, 0);
        }
        let s2 = Hook { priority: m.priority, ..s1 };
        assert(apply_from::<Self>(s1, fields, 1) == apply_from::<Self>(
            s2,
            fields,
            2,
        )) by {
            if m.priority is Some {
                let payload = be32(m.priority.unwrap());
                lemma_decode_be32(m.priority.unwrap());
                assert(Self::apply_model(s1, NFTA_HOOK_PRIORITY, payload) == Ok::<
                    Hook,
                    DecodeError,
                >(s2));
            }
            lemma_apply_step::<Self>(s1, s2, fields, 1);
        }
        assert(s2 == m);
    }
}

/// A chain: a list of rules in a table. It knows its table by name and
/// family, not by reference.
#[derive(Clone, Debug, PartialEq, Eq, Hash)]
pub struct Chain {
    /// The address family that the object belongs to.
    pub family: ProtocolFamily,
    /// Name of the table that the chain is in.
    pub table: Option<String>,
    /// Handle that the kernel gave the chain.
    pub handle: Option<u64>,
    /// Name of the chain.
    pub name: Option<String>,
    /// Where and when the chain is run.
    pub hook: Option<Hook>,
    /// What happens to a packet that no rule has decided on.
    pub policy: Option<ChainPolicy>,
}

/// What a [`Chain`] holds, as plain values.
pub struct ChainModel {
    pub family: ProtocolFamily,
    pub table: Option<Seq<char>>,
    pub handle: Option<u64>,
    pub name: Option<Seq<char>>,
    pub hook: Option<Hook>,
    pub policy: Option<ChainPolicy>,
}

impl View for Chain {
    type V = ChainModel;

    open spec fn view(&self) -> ChainModel {
        ChainModel {
            family: self.family,
            table: opt_model(self.table),
            handle: self.handle,
            name: opt_model(self.name),
            hook: opt_model(self.hook),
            policy: self.policy,
        }
    }
}

impl Chain {
    /// A chain in the given table, without a name yet. It takes the table's
    /// family and, if the table has one, the table's name.
    pub fn new(table: &Table) -> (r: Self)
        ensures
            r@ == (ChainModel {
                family: table@.family,
                table: table@.name,
                ..<Chain as NfNetlinkAttribute>::empty_model()
            }),
    {
        let name = match &table.name {
            None => None,
            Some(n) => Some(n.clone()),
        };
        Chain {
            family: table.family,
            table: name,
            handle: None,
            name: None,
            hook: None,
            policy: None,
        }
    }

    /// The same object with this field set: name of the table that the chain is
    /// in.
    pub fn with_table(self, v: String) -> (r: Self)
        ensures
            r@ == (ChainModel { table: Some(v@), ..self@ }),
    {
        Chain { table: Some(v), ..self }
    }

    /// Sets this field: name of the table that the chain is in.
    pub fn set_table(&mut self, v: String)
        ensures
            final(self)@ == (ChainModel { table: Some(v@), ..old(self)@ }),
    {
        self.table = Some(v);
    }

    /// This field, if it is present: name of the table that the chain is in.
    pub fn get_table(&self) -> (r: Option<&String>)
        ensures
            r is Some <==> self.table is Some,
            r is Some ==> *r.unwrap() == self.table.unwrap(),
    {
        self.table.as_ref()
    }

    /// The same object with this field set: handle that the kernel gave the
    /// chain.
    pub fn with_handle(self, v: u64) -> (r: Self)
        ensures
            r@ == (ChainModel { handle: Some(v), ..self@ }),
    {
        Chain { handle: Some(v), ..self }
    }

    /// Sets this field: handle that the kernel gave the chain.
    pub fn set_handle(&mut self, v: u64)
        ensures
            final(self)@ == (ChainModel { handle: Some(v), ..old(self)@ }),
    {
        self.handle = Some(v);
    }

    /// This field, if it is present: handle that the kernel gave the chain.
    pub fn get_handle(&self) -> (r: Option<&u64>)
        ensures
            r is Some <==> self.handle is Some,
            r is Some ==> *r.unwrap() == self.handle.unwrap(),
    {
        self.handle.as_ref()
    }

    /// The same object with this field set: name of the chain.
    pub fn with_name(self, v: String) -> (r: Self)
        ensures
            r@ == (ChainModel { name: Some(v@), ..self@ }),
    {
        Chain { name: Some(v), ..self }
    }

    /// Sets this field: name of the chain.
    pub fn set_name(&mut self, v: String)
        ensures
            final(self)@ == (ChainModel { name: Some(v@), ..old(self)@ }),
    {
        self.name = Some(v);
    }

    /// This field, if it is present: name of the chain.
    pub fn get_name(&self) -> (r: Option<&String>)
        ensures
            r is Some <==> self.name is Some,
            r is Some ==> *r.unwrap() == self.name.unwrap(),
    {
        self.name.as_ref()
    }

    /// The same object with this field set: where and when the chain is run.
    pub fn with_hook(self, v: Hook) -> (r: Self)
        ensures
            r@ == (ChainModel { hook: Some(v@), ..self@ }),
    {
        Chain { hook: Some(v), ..self }
    }

    /// This field, if it is present: where and when the chain is run.
    pub fn get_hook(&self) -> (r: Option<&Hook>)
        ensures
            r is Some <==> self.hook is Some,
            r is Some ==> *r.unwrap() == self.hook.unwrap(),
    {
        self.hook.as_ref()
    }

    /// The same object with this field set: what happens to a packet that no rule
    /// has decided on.
    pub fn with_policy(self, v: ChainPolicy) -> (r: Self)
        ensures
            r@ == (ChainModel { policy: Some(v), ..self@ }),
    {
        Chain { policy: Some(v), ..self }
    }

    /// Sets this field: what happens to a packet that no rule has decided on.
    pub fn set_policy(&mut self, v: ChainPolicy)
        ensures
            final(self)@ == (ChainModel { policy: Some(v), ..old(self)@ }),
    {
        self.policy = Some(v);
    }

    /// This field, if it is present: what happens to a packet that no rule has
    /// decided on.
    pub fn get_policy(&self) -> (r: Option<&ChainPolicy>)
        ensures
            r is Some <==> self.policy is Some,
            r is Some ==> *r.unwrap() == self.policy.unwrap(),
    {
        self.policy.as_ref()
    }

    /// The same object in the given family.
    pub fn with_family(self, family: ProtocolFamily) -> (r: Self)
        ensures
            r@ == (ChainModel { family, ..self@ }),
    {
        Chain { family, ..self }
    }
}

impl Default for Chain {
    fn default() -> (r: Self)
        ensures
            r@ == <Chain as NfNetlinkAttribute>::empty_model(),
    {
        <Chain as NfNetlinkAttribute>::empty()
    }
}

impl NfNetlinkAttribute for Chain {
    open spec fn fields(m: ChainModel) -> Fields {
        seq![
            string_field(NFTA_CHAIN_TABLE, m.table),
            be64_field(NFTA_CHAIN_HANDLE, m.handle),
            string_field(NFTA_CHAIN_NAME, m.name),
            nested_field(NFTA_CHAIN_HOOK, model_fields::<Hook>(m.hook)),
            enum_field(NFTA_CHAIN_POLICY, m.policy),
        ]
    }

    open spec fn empty_model() -> ChainModel {
        ChainModel {
            family: ProtocolFamily::Unspec,
            table: None,
            handle: None,
            name: None,
            hook: None,
            policy: None,
        }
    }

    open spec fn apply_model(m: ChainModel, code: u16, payload: Seq<u8>) -> Result<
        ChainModel,
        DecodeError,
    > {
        if code == NFTA_CHAIN_TABLE {
            match decode_string(payload) {
                Err(e) => Err(e),
                Ok(v) => Ok(ChainModel { table: Some(v), ..m }),
            }
        } else if code == NFTA_CHAIN_HANDLE {
            match decode_be64(payload) {
                Err(e) => Err(e),
                Ok(v) => Ok(ChainModel { handle: Some(v), ..m }),
            }
        } else if code == NFTA_CHAIN_NAME {
            match decode_string(payload) {
                Err(e) => Err(e),
                Ok(v) => Ok(ChainModel { name: Some(v), ..m }),
            }
        } else if code == NFTA_CHAIN_HOOK {
            match decode_model::<Hook>(payload) {
                Err(e) => Err(e),
                Ok(v) => Ok(ChainModel { hook: Some(v), ..m }),
            }
        } else if code == NFTA_CHAIN_POLICY {
            match decode_enum::<ChainPolicy>(payload) {
                Err(e) => Err(e),
                Ok(v) => Ok(ChainModel { policy: Some(v), ..m }),
            }
        } else {
            Ok(m)
        }
    }

    fn empty() -> (r: Self) {
        Chain {
            family: ProtocolFamily::Unspec,
            table: None,
            handle: None,
            name: None,
            hook: None,
            policy: None,
        }
    }

    fn write_payload(&self, buf: &mut Vec<u8>) -> (r: Result<(), BuilderError>) {
        let ghost fields = Self::fields(self@);
        proof {
            lemma_wire_split(fields, 5);
            assert(buf@ + wire_upto(fields, 0) =~= buf@);
            assert(fit_upto(fields, 0));
        }
        match write_string_field(buf, NFTA_CHAIN_TABLE, &self.table) {
            Err(e) => {
                proof {
                    lemma_unfit_at(fields, 0, 0);
                }
                return Err(e);
            },
            Ok(()) => {},
        }
        assert(buf@ == old(buf)@ + wire_upto(fields, 1) && fit_upto(fields, 1));
        write_be64_field(buf, NFTA_CHAIN_HANDLE, self.handle);
        assert(buf@ == old(buf)@ + wire_upto(fields, 2) && fit_upto(fields, 2));
        match write_string_field(buf, NFTA_CHAIN_NAME, &self.name) {
            Err(e) => {
                proof {
                    lemma_unfit_at(fields, 0, 2);
                }
                return Err(e);
            },
            Ok(()) => {},
        }
        assert(buf@ == old(buf)@ + wire_upto(fields, 3) && fit_upto(fields, 3));
        match write_nested_field(buf, NFTA_CHAIN_HOOK, &self.hook) {
            Err(e) => {
                proof {
                    lemma_unfit_at(fields, 0, 3);
                }
                return Err(e);
            },
            Ok(()) => {},
        }
        assert(buf@ == old(buf)@ + wire_upto(fields, 4) && fit_upto(fields, 4));
        write_enum_field(buf, NFTA_CHAIN_POLICY, self.policy);
        assert(buf@ == old(buf)@ + wire_upto(fields, 5) && fit_upto(fields, 5));
        proof {
            lemma_fit_upto(fields, 5);
        }
        Ok(())
    }

    fn equals(&self, other: &Self) -> (b: bool) {
        let same_handle = match (self.handle, other.handle) {
            (None, None) => true,
            (Some(x), Some(y)) => x == y,
            _ => false,
        };
        let same_policy = match (self.policy, other.policy) {
            (None, None) => true,
            (Some(x), Some(y)) => x == y,
            _ => false,
        };
        self.family == other.family
            && opt_string_eq(&self.table, &other.table)
            && same_handle
            && opt_string_eq(&self.name, &other.name)
            && opt_object_eq(&self.hook, &other.hook)
            && same_policy
    }

    fn decode_attribute(self, code: u16, payload: &[u8]) -> (r: Result<Self, DecodeError>) {
        if code == NFTA_CHAIN_TABLE {
            let v = read_string(payload)?;
            Ok(Chain { table: Some(v), ..self })
        } else if code == NFTA_CHAIN_HANDLE {
            let v = read_be64(payload)?;
            Ok(Chain { handle: Some(v), ..self })
        } else if code == NFTA_CHAIN_NAME {
            let v = read_string(payload)?;
            Ok(Chain { name: Some(v), ..self })
        } else if code == NFTA_CHAIN_HOOK {
            let v = deserialize::<Hook>(payload)?;
            Ok(Chain { hook: Some(v), ..self })
        } else if code == NFTA_CHAIN_POLICY {
            let v = read_enum::<ChainPolicy>(payload)?;
            Ok(Chain { policy: Some(v), ..self })
        } else {
            Ok(self)
        }
    }
}

impl NfNetlinkObject for Chain {
    open spec fn family_of(m: ChainModel) -> ProtocolFamily {
        m.family
    }

    open spec fn with_family_model(m: ChainModel, family: ProtocolFamily) -> ChainModel {
        ChainModel { family, ..m }
    }

    open spec fn msg_type_add() -> u8 {
        NFT_MSG_NEWCHAIN
    }

    open spec fn msg_type_del() -> u8 {
        NFT_MSG_DELCHAIN
    }

    open spec fn msg_type_get() -> u8 {
        NFT_MSG_GETCHAIN
    }

    /// The object is created if it does not exist yet.
    open spec fn add_flags() -> u16 {
        NLM_F_CREATE
    }

    open spec fn valid(m: ChainModel) -> bool {
        m.hook is Some ==> <Hook as Lossless>::valid(m.hook.unwrap())
    }

    fn get_family(&self) -> (f: ProtocolFamily) {
        self.family
    }

    fn set_family(&mut self, family: ProtocolFamily) {
        self.family = family;
    }

    fn get_msg_type_add() -> (t: u8) {
        NFT_MSG_NEWCHAIN
    }

    fn get_msg_type_del() -> (t: u8) {
        NFT_MSG_DELCHAIN
    }

    fn get_msg_type_get() -> (t: u8) {
        NFT_MSG_GETCHAIN
    }

    fn get_add_flags(&self) -> (f: u16) {
        NLM_F_CREATE
    }

    proof fn lemma_family(m: ChainModel, family: ProtocolFamily) {
    }

    proof fn lemma_object_roundtrip(m: ChainModel) {
        let fields = Self::fields(m);
        let s0 = Self::with_family_model(Self::empty_model(), m.family);
        lemma_decode_fields::<Self>(s0, fields, 0);
        let s1 = ChainModel { table: m.table, ..s0 };
        assert(apply_from::<Self>(s0, fields, 0) == apply_from::<Self>(
            s1,
            fields,
            1,
        )) by {
            if m.table is Some {
                let payload = c_string(m.table.unwrap());
                lemma_decode_string(m.table.unwrap());
                assert(Self::apply_model(s0, NFTA_CHAIN_TABLE, payload) == Ok::<
                    ChainModel,
                    DecodeError,
                >(s1));
            }
            lemma_apply_step::<Self>(s0, s1, fields, 0);
        }
        let s2 = ChainModel { handle: m.handle, ..s1 };
        assert(apply_from::<Self>(s1, fields, 1) == apply_from::<Self>(
            s2,
            fields,
            2,
        )) by {
            if m.handle is Some {
                let payload = be64(m.handle.unwrap());
                lemma_decode_be64(m.handle.unwrap());
                assert(Self::apply_model(s1, NFTA_CHAIN_HANDLE, payload) == Ok::<
                    ChainModel,
                    DecodeError,
                >(s2));
            }
            lemma_apply_step::<Self>(s1, s2, fields, 1);
        }
        let s3 = ChainModel { name: m.name, ..s2 };
        assert(apply_from::<Self>(s2, fields, 2) == apply_from::<Self>(
            s3,
            fields,
            3,
        )) by {
            if m.name is Some {
                let payload = c_string(m.name.unwrap());
                lemma_decode_string(m.name.unwrap());
                assert(Self::apply_model(s2, NFTA_CHAIN_NAME, payload) == Ok::<
                    ChainModel,
                    DecodeError,
                >(s3));
            }
            lemma_apply_step::<Self>(s2, s3, fields, 2);
        }
        let s4 = ChainModel { hook: m.hook, ..s3 };
        assert(apply_from::<Self>(s3, fields, 3) == apply_from::<Self>(
            s4,
            fields,
            4,
        )) by {
            if m.hook is Some {
                let payload = fields_wire(Hook::fields(m.hook.unwrap()));
                lemma_fit_each(fields, 0, 3);
                lemma_nested_type_code(NFTA_CHAIN_HOOK);
                lemma_decode_nested::<Hook>(m.hook.unwrap());
                assert(Self::apply_model(s3, NFTA_CHAIN_HOOK, payload) == Ok::<
                    ChainModel,
                    DecodeError,
                >(s4));
            }
            lemma_apply_step::<Self>(s3, s4, fields, 3);
        }
        let s5 = ChainModel { policy: m.policy, ..s4 };
        assert(apply_from::<Self>(s4, fields, 4) == apply_from::<Self>(
            s5,
            fields,
            5,
        )) by {
            if m.policy is Some {
                let payload = be32(m.policy.unwrap().code());
                lemma_decode_enum::<ChainPolicy>(m.policy.unwrap());
                assert(Self::apply_model(s4, NFTA_CHAIN_POLICY, payload) == Ok::<
                    ChainModel,
                    DecodeError,
                >(s5));
            }
            lemma_apply_step::<Self>(s4, s5, fields, 4);
        }
        assert(s5 == m);
    }
}

/// The chain that holds only what tells the chains of a table from all
/// others: the family and the table's name.
pub open spec fn table_filter(m: TableModel) -> ChainModel {
    ChainModel {
        family: m.family,
        table: m.name,
        ..<Chain as NfNetlinkAttribute>::empty_model()
    }
}

/// The query that lists the chains of the given table: its request carries,
/// as a filter, a chain that holds only the table's family and name.
///
/// Fails exactly when the table's name is too long to be encoded.
pub fn chains_query_for_table(table: &Table, seq: u32, portid: u32) -> (r: Result<
    QuerySession<Chain>,
    Error,
>)
    ensures
        r is Ok <==> filter_fits::<Chain>(Some(table_filter(table@))),
        r is Ok ==> r.unwrap()@ == (QueryModel {
            state: QueryState::Idle,
            seq,
            portid,
            request: dump_request::<Chain>(NFT_MSG_GETCHAIN, seq, Some(table_filter(table@))),
            objects: Seq::<ChainModel>::empty(),
        }),
        r is Err ==> r == Err::<QuerySession<Chain>, Error>(
            Error::InitError(filter_error::<Chain>(Some(table_filter(table@)))),
        ),
{
    let filter = Chain::new(table);
    QuerySession::list(Some(&filter), seq, portid)
}

} // verus!
