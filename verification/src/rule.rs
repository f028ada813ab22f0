//! Rules.

use vstd::prelude::*;
use crate::attr::lemma_nested_type_code;
use crate::batch::{Batch, BatchModel, entry_of};
use crate::bytes::{be32, be64, decode_be32, decode_be64, read_be32, read_be64};
use crate::chain::{Chain, ChainModel};
use crate::error::{BuilderError, DecodeError};
use crate::expr::kind::Expression;
use crate::expr::list::ExpressionList;
use crate::expr::raw::{RawExpressionModel, raw_model_of};
use crate::family::{MsgType, ProtocolFamily};
use crate::field::{
    be32_field, be64_field, bytes_field, c_string, decode_string, lemma_decode_be32,
    lemma_decode_be64, lemma_decode_nested, lemma_decode_string, model_fields, nested_field,
    opt_bytes_eq, opt_model, opt_object_eq, opt_string_eq, read_bytes, read_string, string_field,
    write_be32_field, write_be64_field, write_bytes_field, write_nested_field, write_string_field,
};
use crate::nlmsg::{NfNetlinkObject, message_fits};
use crate::query::{Error, QueryModel, QuerySession, QueryState, dump_request, filter_error};
use crate::schema::{
    Fields, Lossless, NfNetlinkAttribute, apply_from, decode_from, decode_model, deserialize,
    fields_fit, fields_wire, fit_upto, lemma_apply_step, lemma_decode_fields, lemma_fit_each,
    lemma_fit_upto, lemma_unfit_at, lemma_wire_split, wire_upto,
};
use crate::sys::{
    NFTA_RULE_CHAIN, NFTA_RULE_EXPRESSIONS, NFTA_RULE_HANDLE, NFTA_RULE_ID, NFTA_RULE_POSITION,
    NFTA_RULE_TABLE, NFTA_RULE_USERDATA, NFT_MSG_DELRULE, NFT_MSG_GETRULE, NFT_MSG_NEWRULE,
    NLM_F_APPEND, NLM_F_CREATE,
};
use crate::util::Essence;

verus! {

/// A rule: a list of expressions that the kernel runs, first to last, on
/// every packet that goes through the rule's chain.
///
/// It knows its chain and table by name, copied when the rule is made. The
/// handle, the position and the id are given by the kernel.
#[derive(Clone, Debug, PartialEq, Eq, Hash)]
pub struct Rule {
    /// The address family that the object belongs to.
    pub family: ProtocolFamily,
    /// Name of the table that the rule is in.
    pub table: Option<String>,
    /// Name of the chain that the rule is in.
    pub chain: Option<String>,
    /// Handle that the kernel gave the rule.
    pub handle: Option<u64>,
    /// The expressions of the rule, in the order in which they run.
    pub expressions: Option<ExpressionList>,
    /// Handle of the rule that this one stands after.
    pub position: Option<u64>,
    /// Bytes that the kernel keeps with the rule and does not read.
    pub userdata: Option<Vec<u8>>,
    /// Id of the rule, within a transaction.
    pub id: Option<u32>,
}

/// What a [`Rule`] holds, as plain values.
pub struct RuleModel {
    pub family: ProtocolFamily,
    pub table: Option<Seq<char>>,
    pub chain: Option<Seq<char>>,
    pub handle: Option<u64>,
    pub expressions: Option<Seq<RawExpressionModel>>,
    pub position: Option<u64>,
    pub userdata: Option<Seq<u8>>,
    pub id: Option<u32>,
}

impl View for Rule {
    type V = RuleModel;

    open spec fn view(&self) -> RuleModel {
        RuleModel {
            family: self.family,
            table: opt_model(self.table),
            chain: opt_model(self.chain),
            handle: self.handle,
            expressions: opt_model(self.expressions),
            position: self.position,
            userdata: opt_model(self.userdata),
            id: self.id,
        }
    }
}

impl Rule {
    /// Creates a new rule in the given chain. The rule takes the chain's
    /// family, the name of the chain's table and the chain's name.
    ///
    /// Fails exactly when the chain has no table or no name yet.
    pub fn new(chain: &Chain) -> (r: Result<Rule, BuilderError>)
        ensures
            r is Ok <==> chain@.table is Some && chain@.name is Some,
            r is Ok ==> r.unwrap()@ == (RuleModel {
                family: chain@.family,
                table: chain@.table,
                chain: chain@.name,
                ..<Rule as NfNetlinkAttribute>::empty_model()
            }),
            r is Err ==> r == Err::<Rule, BuilderError>(BuilderError::MissingChainInformationError),
    {
        let table = match chain.get_table() {
            Some(t) => t.clone(),
            None => {
                return Err(BuilderError::MissingChainInformationError);
            },
        };
        let name = match chain.get_name() {
            Some(n) => n.clone(),
            None => {
                return Err(BuilderError::MissingChainInformationError);
            },
        };
        let rule = <Rule as NfNetlinkAttribute>::empty();
        Ok(rule.with_family(chain.family).with_table(table).with_chain(name))
    }

    /// Appends an expression to the rule. The list is made when the first
    /// expression is added; the expressions before the new one stay where they
    /// are.
    pub fn add_expr<E: Expression>(&mut self, e: E)
        ensures
            final(self)@ == (RuleModel {
                expressions: Some(expressions_of(old(self)@).push(raw_model_of::<E>(e@))),
                ..old(self)@
            }),
    {
        let mut exprs = match self.expressions.take() {
            Some(x) => x,
            None => ExpressionList::new(),
        };
        exprs.add_value(e);
        self.expressions = Some(exprs);
    }

    /// The same rule with one more expression at its end.
    pub fn with_expr<E: Expression>(self, e: E) -> (r: Self)
        ensures
            r@ == (RuleModel {
                expressions: Some(expressions_of(self@).push(raw_model_of::<E>(e@))),
                ..self@
            }),
    {
        let mut rule = self;
        rule.add_expr(e);
        rule
    }

    /// Appends the creation of this rule to `batch`, and hands the rule back.
    /// A rule that is too long to be encoded leaves the batch as it was.
    pub fn add_to_batch(self, batch: &mut Batch) -> (r: Self)
        ensures
            r == self,
            final(batch)@ == (if rule_fits(self@) {
                BatchModel {
                    entries: old(batch)@.entries.push(entry_of::<Rule>(self@, MsgType::Add)),
                    ..old(batch)@
                }
            } else {
                old(batch)@
            }),
    {
        let _ = batch.add(&self, MsgType::Add);
        self
    }

    /// The same object with this field set: name of the table that the rule is
    /// in.
    pub fn with_table(self, v: String) -> (r: Self)
        ensures
            r@ == (RuleModel { table: Some(v@), ..self@ }),
    {
        Rule { table: Some(v), ..self }
    }

    /// Sets this field: name of the table that the rule is in.
    pub fn set_table(&mut self, v: String)
        ensures
            final(self)@ == (RuleModel { table: Some(v@), ..old(self)@ }),
    {
        self.table = Some(v);
    }

    /// This field, if it is present: name of the table that the rule is in.
    pub fn get_table(&self) -> (r: Option<&String>)
        ensures
            r is Some <==> self.table is Some,
            r is Some ==> *r.unwrap() == self.table.unwrap(),
    {
        self.table.as_ref()
    }

    /// The same object with this field set: name of the chain that the rule is
    /// in.
    pub fn with_chain(self, v: String) -> (r: Self)
        ensures
            r@ == (RuleModel { chain: Some(v@), ..self@ }),
    {
        Rule { chain: Some(v), ..self }
    }

    /// Sets this field: name of the chain that the rule is in.
    pub fn set_chain(&mut self, v: String)
        ensures
            final(self)@ == (RuleModel { chain: Some(v@), ..old(self)@ }),
    {
        self.chain = Some(v);
    }

    /// This field, if it is present: name of the chain that the rule is in.
    pub fn get_chain(&self) -> (r: Option<&String>)
        ensures
            r is Some <==> self.chain is Some,
            r is Some ==> *r.unwrap() == self.chain.unwrap(),
    {
        self.chain.as_ref()
    }

    /// The same object with this field set: handle that the kernel gave the rule.
    pub fn with_handle(self, v: u64) -> (r: Self)
        ensures
            r@ == (RuleModel { handle: Some(v), ..self@ }),
    {
        Rule { handle: Some(v), ..self }
    }

    /// Sets this field: handle that the kernel gave the rule.
    pub fn set_handle(&mut self, v: u64)
        ensures
            final(self)@ == (RuleModel { handle: Some(v), ..old(self)@ }),
    {
        self.handle = Some(v);
    }

    /// This field, if it is present: handle that the kernel gave the rule.
    pub fn get_handle(&self) -> (r: Option<&u64>)
        ensures
            r is Some <==> self.handle is Some,
            r is Some ==> *r.unwrap() == self.handle.unwrap(),
    {
        self.handle.as_ref()
    }

    /// The same object with this field set: the expressions of the rule, in the
    /// order in which they run.
    pub fn with_expressions(self, v: ExpressionList) -> (r: Self)
        ensures
            r@ == (RuleModel { expressions: Some(v@), ..self@ }),
    {
        Rule { expressions: Some(v), ..self }
    }

    /// Sets this field: the expressions of the rule, in the order in which they
    /// run.
    pub fn set_expressions(&mut self, v: ExpressionList)
        ensures
            final(self)@ == (RuleModel { expressions: Some(v@), ..old(self)@ }),
    {
        self.expressions = Some(v);
    }

    /// This field, if it is present: the expressions of the rule, in the order in
    /// which they run.
    pub fn get_expressions(&self) -> (r: Option<&ExpressionList>)
        ensures
            r is Some <==> self.expressions is Some,
            r is Some ==> *r.unwrap() == self.expressions.unwrap(),
    {
        self.expressions.as_ref()
    }

    /// The same object with this field set: handle of the rule that this one
    /// stands after.
    pub fn with_position(self, v: u64) -> (r: Self)
        ensures
            r@ == (RuleModel { position: Some(v), ..self@ }),
    {
        Rule { position: Some(v), ..self }
    }

    /// Sets this field: handle of the rule that this one stands after.
    pub fn set_position(&mut self, v: u64)
        ensures
            final(self)@ == (RuleModel { position: Some(v), ..old(self)@ }),
    {
        self.position = Some(v);
    }

    /// This field, if it is present: handle of the rule that this one stands
    /// after.
    pub fn get_position(&self) -> (r: Option<&u64>)
        ensures
            r is Some <==> self.position is Some,
            r is Some ==> *r.unwrap() == self.position.unwrap(),
    {
        self.position.as_ref()
    }

    /// The same object with this field set: bytes that the kernel keeps with the
    /// rule and does not read.
    pub fn with_userdata(self, v: Vec<u8>) -> (r: Self)
        ensures
            r@ == (RuleModel { userdata: Some(v@), ..self@ }),
    {
        Rule { userdata: Some(v), ..self }
    }

    /// Sets this field: bytes that the kernel keeps with the rule and does not
    /// read.
    pub fn set_userdata(&mut self, v: Vec<u8>)
        ensures
            final(self)@ == (RuleModel { userdata: Some(v@), ..old(self)@ }),
    {
        self.userdata = Some(v);
    }

    /// This field, if it is present: bytes that the kernel keeps with the rule
    /// and does not read.
    pub fn get_userdata(&self) -> (r: Option<&Vec<u8>>)
        ensures
            r is Some <==> self.userdata is Some,
            r is Some ==> *r.unwrap() == self.userdata.unwrap(),
    {
        self.userdata.as_ref()
    }

    /// The same object with this field set: id of the rule, within a transaction.
    pub fn with_id(self, v: u32) -> (r: Self)
        ensures
            r@ == (RuleModel { id: Some(v), ..self@ }),
    {
        Rule { id: Some(v), ..self }
    }

    /// Sets this field: id of the rule, within a transaction.
    pub fn set_id(&mut self, v: u32)
        ensures
            final(self)@ == (RuleModel { id: Some(v), ..old(self)@ }),
    {
        self.id = Some(v);
    }

    /// This field, if it is present: id of the rule, within a transaction.
    pub fn get_id(&self) -> (r: Option<&u32>)
        ensures
            r is Some <==> self.id is Some,
            r is Some ==> *r.unwrap() == self.id.unwrap(),
    {
        self.id.as_ref()
    }

    /// The same object in the given family.
    pub fn with_family(self, family: ProtocolFamily) -> (r: Self)
        ensures
            r@ == (RuleModel { family, ..self@ }),
    {
        Rule { family, ..self }
    }
}

impl Default for Rule {
    fn default() -> (r: Self)
        ensures
            r@ == <Rule as NfNetlinkAttribute>::empty_model(),
    {
        <Rule as NfNetlinkAttribute>::empty()
    }
}

impl NfNetlinkAttribute for Rule {
    open spec fn fields(m: RuleModel) -> Fields {
        seq![
            string_field(NFTA_RULE_TABLE, m.table),
            string_field(NFTA_RULE_CHAIN, m.chain),
            be64_field(NFTA_RULE_HANDLE, m.handle),
            nested_field(NFTA_RULE_EXPRESSIONS, model_fields::<ExpressionList>(m.expressions)),
            be64_field(NFTA_RULE_POSITION, m.position),
            bytes_field(NFTA_RULE_USERDATA, m.userdata),
            be32_field(NFTA_RULE_ID, m.id),
        ]
    }

    open spec fn empty_model() -> RuleModel {
        RuleModel {
            family: ProtocolFamily::Unspec,
            table: None,
            chain: None,
            handle: None,
            expressions: None,
            position: None,
            userdata: None,
            id: None,
        }
    }

    open spec fn apply_model(m: RuleModel, code: u16, payload: Seq<u8>) -> Result<
        RuleModel,
        DecodeError,
    > {
        if code == NFTA_RULE_TABLE {
            match decode_string(payload) {
                Err(e) => Err(e),
                Ok(v) => Ok(RuleModel { table: Some(v), ..m }),
            }
        } else if code == NFTA_RULE_CHAIN {
            match decode_string(payload) {
                Err(e) => Err(e),
                Ok(v) => Ok(RuleModel { chain: Some(v), ..m }),
            }
        } else if code == NFTA_RULE_HANDLE {
            match decode_be64(payload) {
                Err(e) => Err(e),
                Ok(v) => Ok(RuleModel { handle: Some(v), ..m }),
            }
        } else if code == NFTA_RULE_EXPRESSIONS {
            match decode_model::<ExpressionList>(payload) {
                Err(e) => Err(e),
                Ok(v) => Ok(RuleModel { expressions: Some(v), ..m }),
            }
        } else if code == NFTA_RULE_POSITION {
            match decode_be64(payload) {
                Err(e) => Err(e),
                Ok(v) => Ok(RuleModel { position: Some(v), ..m }),
            }
        } else if code == NFTA_RULE_USERDATA {
            Ok(RuleModel { userdata: Some(payload), ..m })
        } else if code == NFTA_RULE_ID {
            match decode_be32(payload) {
                Err(e) => Err(e),
                Ok(v) => Ok(RuleModel { id: Some(v), ..m }),
            }
        } else {
            Ok(m)
        }
    }

    fn empty() -> (r: Self) {
        Rule {
            family: ProtocolFamily::Unspec,
            table: None,
            chain: None,
            handle: None,
            expressions: None,
            position: None,
            userdata: None,
            id: None,
        }
    }

    fn write_payload(&self, buf: &mut Vec<u8>) -> (r: Result<(), BuilderError>) {
        let ghost fields = Self::fields(self@);
        proof {
            lemma_wire_split(fields, 7);
            assert(buf@ + wire_upto(fields, 0) =~= buf@);
            assert(fit_upto(fields, 0));
        }
        match write_string_field(buf, NFTA_RULE_TABLE, &self.table) {
            Err(e) => {
                proof {
                    lemma_unfit_at(fields, 0, 0);
                }
                return Err(e);
            },
            Ok(()) => {},
        }
        assert(buf@ == old(buf)@ + wire_upto(fields, 1) && fit_upto(fields, 1));
        match write_string_field(buf, NFTA_RULE_CHAIN, &self.chain) {
            Err(e) => {
                proof {
                    lemma_unfit_at(fields, 0, 1);
                }
                return Err(e);
            },
            Ok(()) => {},
        }
        assert(buf@ == old(buf)@ + wire_upto(fields, 2) && fit_upto(fields, 2));
        write_be64_field(buf, NFTA_RULE_HANDLE, self.handle);
        assert(buf@ == old(buf)@ + wire_upto(fields, 3) && fit_upto(fields, 3));
        match write_nested_field(buf, NFTA_RULE_EXPRESSIONS, &self.expressions) {
            Err(e) => {
                proof {
                    lemma_unfit_at(fields, 0, 3);
                }
                return Err(e);
            },
            Ok(()) => {},
        }
        assert(buf@ == old(buf)@ + wire_upto(fields, 4) && fit_upto(fields, 4));
        write_be64_field(buf, NFTA_RULE_POSITION, self.position);
        assert(buf@ == old(buf)@ + wire_upto(fields, 5) && fit_upto(fields, 5));
        match write_bytes_field(buf, NFTA_RULE_USERDATA, &self.userdata) {
            Err(e) => {
                proof {
                    lemma_unfit_at(fields, 0, 5);
                }
                return Err(e);
            },
            Ok(()) => {},
        }
        assert(buf@ == old(buf)@ + wire_upto(fields, 6) && fit_upto(fields, 6));
        write_be32_field(buf, NFTA_RULE_ID, self.id);
        assert(buf@ == old(buf)@ + wire_upto(fields, 7) && fit_upto(fields, 7));
        proof {
            lemma_fit_upto(fields, 7);
        }
        Ok(())
    }

    fn equals(&self, other: &Self) -> (b: bool) {
        let same_handle = match (self.handle, other.handle) {
            (None, None) => true,
            (Some(x), Some(y)) => x == y,
            _ => false,
        };
        let same_position = match (self.position, other.position) {
            (None, None) => true,
            (Some(x), Some(y)) => x == y,
            _ => false,
        };
        let same_id = match (self.id, other.id) {
            (None, None) => true,
            (Some(x), Some(y)) => x == y,
            _ => false,
        };
        self.family == other.family
            && opt_string_eq(&self.table, &other.table)
            && opt_string_eq(&self.chain, &other.chain)
            && same_handle
            && opt_object_eq(&self.expressions, &other.expressions)
            && same_position
            && opt_bytes_eq(&self.userdata, &other.userdata)
            && same_id
    }

    fn decode_attribute(self, code: u16, payload: &[u8]) -> (r: Result<Self, DecodeError>) {
        if code == NFTA_RULE_TABLE {
            let v = read_string(payload)?;
            Ok(Rule { table: Some(v), ..self })
        } else if code == NFTA_RULE_CHAIN {
            let v = read_string(payload)?;
            Ok(Rule { chain: Some(v), ..self })
        } else if code == NFTA_RULE_HANDLE {
            let v = read_be64(payload)?;
            Ok(Rule { handle: Some(v), ..self })
        } else if code == NFTA_RULE_EXPRESSIONS {
            let v = deserialize::<ExpressionList>(payload)?;
            Ok(Rule { expressions: Some(v), ..self })
        } else if code == NFTA_RULE_POSITION {
            let v = read_be64(payload)?;
            Ok(Rule { position: Some(v), ..self })
        } else if code == NFTA_RULE_USERDATA {
            let v = read_bytes(payload);
            Ok(Rule { userdata: Some(v), ..self })
        } else if code == NFTA_RULE_ID {
            let v = read_be32(payload)?;
            Ok(Rule { id: Some(v), ..self })
        } else {
            Ok(self)
        }
    }
}

impl NfNetlinkObject for Rule {
    open spec fn family_of(m: RuleModel) -> ProtocolFamily {
        m.family
    }

    open spec fn with_family_model(m: RuleModel, family: ProtocolFamily) -> RuleModel {
        RuleModel { family, ..m }
    }

    open spec fn msg_type_add() -> u8 {
        NFT_MSG_NEWRULE
    }

    open spec fn msg_type_del() -> u8 {
        NFT_MSG_DELRULE
    }

    open spec fn msg_type_get() -> u8 {
        NFT_MSG_GETRULE
    }

    /// The rule is created, and it goes to the end of its chain, not to the
    /// beginning.
    open spec fn add_flags() -> u16 {
        NLM_F_CREATE | NLM_F_APPEND
    }

    open spec fn valid(m: RuleModel) -> bool {
        m.expressions is Some ==> <ExpressionList as Lossless>::valid(m.expressions.unwrap())
    }

    fn get_family(&self) -> (f: ProtocolFamily) {
        self.family
    }

    fn set_family(&mut self, family: ProtocolFamily) {
        self.family = family;
    }

    fn get_msg_type_add() -> (t: u8) {
        NFT_MSG_NEWRULE
    }

    fn get_msg_type_del() -> (t: u8) {
        NFT_MSG_DELRULE
    }

    fn get_msg_type_get() -> (t: u8) {
        NFT_MSG_GETRULE
    }

    fn get_add_flags(&self) -> (f: u16) {
        NLM_F_CREATE | NLM_F_APPEND
    }

    proof fn lemma_family(m: RuleModel, family: ProtocolFamily) {
    }

    proof fn lemma_object_roundtrip(m: RuleModel) {
        let fields = Self::fields(m);
        let s0 = Self::with_family_model(Self::empty_model(), m.family);
        lemma_decode_fields::<Self>(s0, fields, 0);
        let s1 = RuleModel { table: m.table, ..s0 };
        assert(apply_from::<Self>(s0, fields, 0) == apply_from::<Self>(
            s1,
            fields,
            1,
        )) by {
            if m.table is Some {
                let payload = c_string(m.table.unwrap());
                lemma_decode_string(m.table.unwrap());
                assert(Self::apply_model(s0, NFTA_RULE_TABLE, payload) == Ok::<
                    RuleModel,
                    DecodeError,
                >(s1));
            }
            lemma_apply_step::<Self>(s0, s1, fields, 0);
        }
        let s2 = RuleModel { chain: m.chain, ..s1 };
        assert(apply_from::<Self>(s1, fields, 1) == apply_from::<Self>(
            s2,
            fields,
            2,
        )) by {
            if m.chain is Some {
                let payload = c_string(m.chain.unwrap());
                lemma_decode_string(m.chain.unwrap());
                assert(Self::apply_model(s1, NFTA_RULE_CHAIN, payload) == Ok::<
                    RuleModel,
                    DecodeError,
                >(s2));
            }
            lemma_apply_step::<Self>(s1, s2, fields, 1);
        }
        let s3 = RuleModel { handle: m.handle, ..s2 };
        assert(apply_from::<Self>(s2, fields, 2) == apply_from::<Self>(
            s3,
            fields,
            3,
        )) by {
            if m.handle is Some {
                let payload = be64(m.handle.unwrap());
                lemma_decode_be64(m.handle.unwrap());
                assert(Self::apply_model(s2, NFTA_RULE_HANDLE, payload) == Ok::<
                    RuleModel,
                    DecodeError,
                >(s3));
            }
            lemma_apply_step::<Self>(s2, s3, fields, 2);
        }
        let s4 = RuleModel { expressions: m.expressions, ..s3 };
        assert(apply_from::<Self>(s3, fields, 3) == apply_from::<Self>(
            s4,
            fields,
            4,
        )) by {
            if m.expressions is Some {
                let payload = fields_wire(ExpressionList::fields(m.expressions.unwrap()));
                lemma_fit_each(fields, 0, 3);
                lemma_nested_type_code(NFTA_RULE_EXPRESSIONS);
                lemma_decode_nested::<ExpressionList>(m.expressions.unwrap());
                assert(Self::apply_model(s3, NFTA_RULE_EXPRESSIONS, payload) == Ok::<
                    RuleModel,
                    DecodeError,
                >(s4));
            }
            lemma_apply_step::<Self>(s3, s4, fields, 3);
        }
        let s5 = RuleModel { position: m.position, ..s4 };
        assert(apply_from::<Self>(s4, fields, 4) == apply_from::<Self>(
            s5,
            fields,
            5,
        )) by {
            if m.position is Some {
                let payload = be64(m.position.unwrap());
                lemma_decode_be64(m.position.unwrap());
                assert(Self::apply_model(s4, NFTA_RULE_POSITION, payload) == Ok::<
                    RuleModel,
                    DecodeError,
                >(s5));
            }
            lemma_apply_step::<Self>(s4, s5, fields, 4);
        }
        let s6 = RuleModel { userdata: m.userdata, ..s5 };
        assert(apply_from::<Self>(s5, fields, 5) == apply_from::<Self>(
            s6,
            fields,
            6,
        )) by {
            if m.userdata is Some {
                let payload = m.userdata.unwrap();
                assert(Self::apply_model(s5, NFTA_RULE_USERDATA, payload) == Ok::<
                    RuleModel,
                    DecodeError,
                >(s6));
            }
            lemma_apply_step::<Self>(s5, s6, fields, 5);
        }
        let s7 = RuleModel { id: m.id, ..s6 };
        assert(apply_from::<Self>(s6, fields, 6) == apply_from::<Self>(
            s7,
            fields,
            7,
        )) by {
            if m.id is Some {
                let payload = be32(m.id.unwrap());
                lemma_decode_be32(m.id.unwrap());
                assert(Self::apply_model(s6, NFTA_RULE_ID, payload) == Ok::<
                    RuleModel,
                    DecodeError,
                >(s7));
            }
            lemma_apply_step::<Self>(s6, s7, fields, 6);
        }
        assert(s7 == m);
    }
}

/// The expressions of a rule, first to last; none when the rule has no list
/// yet.
pub open spec fn expressions_of(m: RuleModel) -> Seq<RawExpressionModel> {
    match m.expressions {
        None => Seq::empty(),
        Some(l) => l,
    }
}

/// Whether a rule can be encoded: no attribute of it is too long.
pub open spec fn rule_fits(m: RuleModel) -> bool {
    fields_fit(<Rule as NfNetlinkAttribute>::fields(m)) && message_fits(
        fields_wire(<Rule as NfNetlinkAttribute>::fields(m)),
    )
}

/// A rule without what the kernel gives it: the handle, the position and
/// the id are absent, everything else is as it was.
pub open spec fn rule_essence(m: RuleModel) -> RuleModel {
    RuleModel { handle: None, position: None, id: None, ..m }
}

impl Essence for Rule {
    open spec fn essence(m: RuleModel) -> RuleModel {
        rule_essence(m)
    }

    fn essentialize(&mut self) {
        self.handle = None;
        self.position = None;
        self.id = None;
    }
}

/// A rule read back from the kernel differs from the rule that was sent in
/// what the kernel gave it, and in nothing else: the two are unequal as long
/// as the kernel's copy has a handle, a position or an id, and equal once
/// those are taken off the kernel's copy.
pub proof fn lemma_essential_equality(local: RuleModel, kernel: RuleModel)
    requires
        local.handle is None && local.position is None && local.id is None,
        kernel == (RuleModel {
            handle: kernel.handle,
            position: kernel.position,
            id: kernel.id,
            ..local
        }),
    ensures
        rule_essence(kernel) == local,
        rule_essence(local) == local,
        kernel.handle is Some || kernel.position is Some || kernel.id is Some ==> kernel != local,
{
}

/// The rule that holds only what tells the rules of a chain from all others:
/// the family, the table's name and the chain's name.
pub open spec fn chain_filter(m: ChainModel) -> RuleModel {
    RuleModel {
        family: m.family,
        table: m.table,
        chain: m.name,
        ..<Rule as NfNetlinkAttribute>::empty_model()
    }
}

/// The query that lists the rules of the given chain, and no others: its
/// request carries, as a filter, a rule that holds only the chain's family,
/// the name of its table and its own name.
///
/// Fails when the chain has no table or no name yet, and when those names
/// are too long to be encoded.
pub fn rules_query_for_chain(chain: &Chain, seq: u32, portid: u32) -> (r: Result<
    QuerySession<Rule>,
    Error,
>)
    ensures
        r is Ok <==> chain@.table is Some && chain@.name is Some && rule_fits(chain_filter(chain@)),
        r is Ok ==> r.unwrap()@ == (QueryModel {
            state: QueryState::Idle,
            seq,
            portid,
            request: dump_request::<Rule>(NFT_MSG_GETRULE, seq, Some(chain_filter(chain@))),
            objects: Seq::<RuleModel>::empty(),
        }),
        chain@.table is None || chain@.name is None ==> r == Err::<QuerySession<Rule>, Error>(
            Error::InitError(BuilderError::MissingChainInformationError),
        ),
        chain@.table is Some && chain@.name is Some && r is Err ==> r == Err::<
            QuerySession<Rule>,
            Error,
        >(Error::InitError(filter_error::<Rule>(Some(chain_filter(chain@))))),
{
    let filter = match Rule::new(chain) {
        Ok(f) => f,
        Err(e) => {
            return Err(Error::InitError(e));
        },
    };
    QuerySession::list(Some(&filter), seq, portid)
}

/// A rule that is read back has the expressions that were written, each at
/// the place where it was: the same number of them, and the same expression
/// at every position.
pub proof fn lemma_expression_order(m: RuleModel)
    requires
        <Rule as NfNetlinkObject>::valid(m),
        fields_fit(<Rule as NfNetlinkAttribute>::fields(m)),
    ensures
        decode_from::<Rule>(
            Rule::with_family_model(Rule::empty_model(), m.family),
            fields_wire(<Rule as NfNetlinkAttribute>::fields(m)),
        ) matches Ok(r) && expressions_of(r).len() == expressions_of(m).len() && (forall|i: int|
            0 <= i < expressions_of(m).len() ==> expressions_of(r)[i] == expressions_of(m)[i]),
{
    Rule::lemma_object_roundtrip(m);
}

/// Taking off what the kernel gave changes nothing the second time.
pub proof fn lemma_essence_idempotent(m: RuleModel)
    ensures
        rule_essence(rule_essence(m)) == rule_essence(m),
{
}

} // verus!
