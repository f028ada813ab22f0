//! The log expression.

use vstd::prelude::*;
use crate::bytes::{be16, decode_be16, read_be16};
use crate::error::{BuilderError, DecodeError};
use crate::expr::kind::{Expression, ExpressionKind};
use crate::expr::raw::{ExpressionData, ExpressionDataModel};
use crate::field::{
    be16_field, c_string, decode_string, lemma_decode_be16, lemma_decode_string, opt_model,
    opt_string_eq, read_string, string_field, write_be16_field, write_string_field,
};
use crate::schema::{
    Fields, Lossless, NfNetlinkAttribute, apply_from, fit_upto, lemma_apply_step,
    lemma_decode_fields, lemma_fit_upto, lemma_unfit_at, lemma_wire_split, wire_upto,
};
use crate::sys::{NFTA_LOG_GROUP, NFTA_LOG_PREFIX};

verus! {

/// Logs the packets that reach it.
#[derive(Clone, Debug, PartialEq, Eq, Hash)]
pub struct Log {
    /// Text that every log line starts with.
    pub prefix: Option<String>,
    /// The netlink log group that the packets are sent to.
    pub group: Option<u16>,
}

/// What a [`Log`] holds, as plain values.
pub struct LogModel {
    pub prefix: Option<Seq<char>>,
    pub group: Option<u16>,
}

impl View for Log {
    type V = LogModel;

    open spec fn view(&self) -> LogModel {
        LogModel {
            prefix: opt_model(self.prefix),
            group: self.group,
        }
    }
}

impl Log {
    /// The expression that logs to `group`, if one is given, with `prefix`, if
    /// one is given.
    pub fn new(group: Option<u16>, prefix: Option<String>) -> (r: Self)
        ensures
            r@ == (LogModel { prefix: opt_model(prefix), group }),
    {
        Log { prefix, group }
    }

    /// The same object with this field set: text that every log line starts with.
    pub fn with_prefix(self, v: String) -> (r: Self)
        ensures
            r@ == (LogModel { prefix: Some(v@), ..self@ }),
    {
        Log { prefix: Some(v), ..self }
    }

    /// Sets this field: text that every log line starts with.
    pub fn set_prefix(&mut self, v: String)
        ensures
            final(self)@ == (LogModel { prefix: Some(v@), ..old(self)@ }),
    {
        self.prefix = Some(v);
    }

    /// This field, if it is present: text that every log line starts with.
    pub fn get_prefix(&self) -> (r: Option<&String>)
        ensures
            r is Some <==> self.prefix is Some,
            r is Some ==> *r.unwrap() == self.prefix.unwrap(),
    {
        self.prefix.as_ref()
    }

    /// The same object with this field set: the netlink log group that the
    /// packets are sent to.
    pub fn with_group(self, v: u16) -> (r: Self)
        ensures
            r@ == (LogModel { group: Some(v), ..self@ }),
    {
        Log { group: Some(v), ..self }
    }

    /// Sets this field: the netlink log group that the packets are sent to.
    pub fn set_group(&mut self, v: u16)
        ensures
            final(self)@ == (LogModel { group: Some(v), ..old(self)@ }),
    {
        self.group = Some(v);
    }

    /// This field, if it is present: the netlink log group that the packets are
    /// sent to.
    pub fn get_group(&self) -> (r: Option<&u16>)
        ensures
            r is Some <==> self.group is Some,
            r is Some ==> *r.unwrap() == self.group.unwrap(),
    {
        self.group.as_ref()
    }
}

impl Default for Log {
    fn default() -> (r: Self)
        ensures
            r@ == <Log as NfNetlinkAttribute>::empty_model(),
    {
        <Log as NfNetlinkAttribute>::empty()
    }
}

impl NfNetlinkAttribute for Log {
    open spec fn fields(m: LogModel) -> Fields {
        seq![
            string_field(NFTA_LOG_PREFIX, m.prefix),
            be16_field(NFTA_LOG_GROUP, m.group),
        ]
    }

    open spec fn empty_model() -> LogModel {
        LogModel { prefix: None, group: None }
    }

    open spec fn apply_model(m: LogModel, code: u16, payload: Seq<u8>) -> Result<
        LogModel,
        DecodeError,
    > {
        if code == NFTA_LOG_PREFIX {
            match decode_string(payload) {
                Err(e) => Err(e),
                Ok(v) => Ok(LogModel { prefix: Some(v), ..m }),
            }
        } else if code == NFTA_LOG_GROUP {
            match decode_be16(payload) {
                Err(e) => Err(e),
                Ok(v) => Ok(LogModel { group: Some(v), ..m }),
            }
        } else {
            Ok(m)
        }
    }

    fn empty() -> (r: Self) {
        Log { prefix: None, group: None }
    }

    fn write_payload(&self, buf: &mut Vec<u8>) -> (r: Result<(), BuilderError>) {
        let ghost fields = Self::fields(self@);
        proof {
            lemma_wire_split(fields, 2);
            assert(buf@ + wire_upto(fields, 0) =~= buf@);
            assert(fit_upto(fields, 0));
        }
        match write_string_field(buf, NFTA_LOG_PREFIX, &self.prefix) {
            Err(e) => {
                proof {
                    lemma_unfit_at(fields, 0, 0);
                }
                return Err(e);
            },
            Ok(()) => {},
        }
        assert(buf@ == old(buf)@ + wire_upto(fields, 1) && fit_upto(fields, 1));
        write_be16_field(buf, NFTA_LOG_GROUP, self.group);
        assert(buf@ == old(buf)@ + wire_upto(fields, 2) && fit_upto(fields, 2));
        proof {
            lemma_fit_upto(fields, 2);
        }
        Ok(())
    }

    fn equals(&self, other: &Self) -> (b: bool) {
        let same_group = match (self.group, other.group) {
            (None, None) => true,
            (Some(x), Some(y)) => x == y,
            _ => false,
        };
        opt_string_eq(&self.prefix, &other.prefix) && same_group
    }

    fn decode_attribute(self, code: u16, payload: &[u8]) -> (r: Result<Self, DecodeError>) {
        if code == NFTA_LOG_PREFIX {
            let v = read_string(payload)?;
            Ok(Log { prefix: Some(v), ..self })
        } else if code == NFTA_LOG_GROUP {
            let v = read_be16(payload)?;
            Ok(Log { group: Some(v), ..self })
        } else {
            Ok(self)
        }
    }
}

impl Lossless for Log {
    open spec fn valid(m: LogModel) -> bool {
        true
    }

    proof fn lemma_roundtrip(m: LogModel) {
        let fields = Self::fields(m);
        let s0 = Self::empty_model();
        lemma_decode_fields::<Self>(s0, fields, 0);
        let s1 = LogModel { prefix: m.prefix, ..s0 };
        assert(apply_from::<Self>(s0, fields, 0) == apply_from::<Self>(
            s1,
            fields,
            1,
        )) by {
            if m.prefix is Some {
                let payload = c_string(m.prefix.unwrap());
                lemma_decode_string(m.prefix.unwrap());
                assert(Self::apply_model(s0, NFTA_LOG_PREFIX, payload) == Ok::<
                    LogModel,
                    DecodeError,
                >(s1));
            }
            lemma_apply_step::<Self>(s0, s1, fields, 0);
        }
        let s2 = LogModel { group: m.group, ..s1 };
        assert(apply_from::<Self>(s1, fields, 1) == apply_from::<Self>(
            s2,
            fields,
            2,
        )) by {
            if m.group is Some {
                let payload = be16(m.group.unwrap());
                lemma_decode_be16(m.group.unwrap());
                assert(Self::apply_model(s1, NFTA_LOG_GROUP, payload) == Ok::<
                    LogModel,
                    DecodeError,
                >(s2));
            }
            lemma_apply_step::<Self>(s1, s2, fields, 1);
        }
        assert(s2 == m);
    }
}

impl Expression for Log {
    open spec fn kind() -> ExpressionKind {
        ExpressionKind::Log
    }

    open spec fn wrap(m: LogModel) -> ExpressionDataModel {
        ExpressionDataModel::Log(m)
    }

    fn get_kind() -> (k: ExpressionKind) {
        ExpressionKind::Log
    }

    fn into_data(self) -> (d: ExpressionData) {
        ExpressionData::Log(self)
    }
}

} // verus!
