//! The kinds of expression, and the names that tell them apart on the wire.

use vstd::prelude::*;
use crate::expr::raw::{ExpressionData, ExpressionDataModel};
use crate::field::str_eq;
use crate::schema::NfNetlinkAttribute;

verus! {

/// The kinds of expression that this library knows.
#[derive(Clone, Copy, Debug, PartialEq, Eq, Hash, Structural)]
pub enum ExpressionKind {
    Bitwise,
    Cmp,
    Counter,
    Conntrack,
    Immediate,
    Log,
    Lookup,
    Masquerade,
    Meta,
    Nat,
    Payload,
    Range,
    Reject,
}

impl ExpressionKind {
    /// The name that an expression of this kind carries in a rule.
    pub open spec fn name(self) -> Seq<char> {
        match self {
            ExpressionKind::Bitwise => "bitwise"@,
            ExpressionKind::Cmp => "cmp"@,
            ExpressionKind::Counter => "counter"@,
            ExpressionKind::Conntrack => "ct"@,
            ExpressionKind::Immediate => "immediate"@,
            ExpressionKind::Log => "log"@,
            ExpressionKind::Lookup => "lookup"@,
            ExpressionKind::Masquerade => "masq"@,
            ExpressionKind::Meta => "meta"@,
            ExpressionKind::Nat => "nat"@,
            ExpressionKind::Payload => "payload"@,
            ExpressionKind::Range => "range"@,
            ExpressionKind::Reject => "reject"@,
        }
    }

    /// The kind that a name stands for, if it stands for one.
    pub open spec fn of_name(s: Seq<char>) -> Option<ExpressionKind> {
        if s == "bitwise"@ {
            Some(ExpressionKind::Bitwise)
        } else if s == "cmp"@ {
            Some(ExpressionKind::Cmp)
        } else if s == "counter"@ {
            Some(ExpressionKind::Counter)
        } else if s == "ct"@ {
            Some(ExpressionKind::Conntrack)
        } else if s == "immediate"@ {
            Some(ExpressionKind::Immediate)
        } else if s == "log"@ {
            Some(ExpressionKind::Log)
        } else if s == "lookup"@ {
            Some(ExpressionKind::Lookup)
        } else if s == "masq"@ {
            Some(ExpressionKind::Masquerade)
        } else if s == "meta"@ {
            Some(ExpressionKind::Meta)
        } else if s == "nat"@ {
            Some(ExpressionKind::Nat)
        } else if s == "payload"@ {
            Some(ExpressionKind::Payload)
        } else if s == "range"@ {
            Some(ExpressionKind::Range)
        } else if s == "reject"@ {
            Some(ExpressionKind::Reject)
        } else {
            None
        }
    }

    /// The name that an expression of this kind carries in a rule.
    pub fn get_name(self) -> (s: &'static str)
        ensures
            s@ == self.name(),
    {
        match self {
            ExpressionKind::Bitwise => "bitwise",
            ExpressionKind::Cmp => "cmp",
            ExpressionKind::Counter => "counter",
            ExpressionKind::Conntrack => "ct",
            ExpressionKind::Immediate => "immediate",
            ExpressionKind::Log => "log",
            ExpressionKind::Lookup => "lookup",
            ExpressionKind::Masquerade => "masq",
            ExpressionKind::Meta => "meta",
            ExpressionKind::Nat => "nat",
            ExpressionKind::Payload => "payload",
            ExpressionKind::Range => "range",
            ExpressionKind::Reject => "reject",
        }
    }

    /// The kind that `s` names; `None` when it names none.
    pub fn from_name(s: &str) -> (r: Option<ExpressionKind>)
        ensures
            r == Self::of_name(s@),
    {
        if str_eq(s, "bitwise") {
            Some(ExpressionKind::Bitwise)
        } else if str_eq(s, "cmp") {
            Some(ExpressionKind::Cmp)
        } else if str_eq(s, "counter") {
            Some(ExpressionKind::Counter)
        } else if str_eq(s, "ct") {
            Some(ExpressionKind::Conntrack)
        } else if str_eq(s, "immediate") {
            Some(ExpressionKind::Immediate)
        } else if str_eq(s, "log") {
            Some(ExpressionKind::Log)
        } else if str_eq(s, "lookup") {
            Some(ExpressionKind::Lookup)
        } else if str_eq(s, "masq") {
            Some(ExpressionKind::Masquerade)
        } else if str_eq(s, "meta") {
            Some(ExpressionKind::Meta)
        } else if str_eq(s, "nat") {
            Some(ExpressionKind::Nat)
        } else if str_eq(s, "payload") {
            Some(ExpressionKind::Payload)
        } else if str_eq(s, "range") {
            Some(ExpressionKind::Range)
        } else if str_eq(s, "reject") {
            Some(ExpressionKind::Reject)
        } else {
            None
        }
    }

    /// No two kinds share a name: every kind is found again from its name.
    pub proof fn lemma_name(self)
        ensures
            Self::of_name(self.name()) == Some(self),
    {
        reveal_strlit("bitwise");
        reveal_strlit("cmp");
        reveal_strlit("counter");
        reveal_strlit("ct");
        reveal_strlit("immediate");
        reveal_strlit("log");
        reveal_strlit("lookup");
        reveal_strlit("masq");
        reveal_strlit("meta");
        reveal_strlit("nat");
        reveal_strlit("payload");
        reveal_strlit("range");
        reveal_strlit("reject");
        assert("masq"@[1] != "meta"@[1]);
        assert("cmp"@[0] != "log"@[0]);
        assert("cmp"@[0] != "nat"@[0]);
        assert("log"@[0] != "nat"@[0]);
        assert("lookup"@[0] != "reject"@[0]);
        assert("bitwise"@[0] != "counter"@[0]);
        assert("bitwise"@[0] != "payload"@[0]);
        assert("counter"@[0] != "payload"@[0]);
        match self {
            ExpressionKind::Bitwise => {},
            ExpressionKind::Cmp => {
                assert("cmp"@.len() == 3);
            },
            ExpressionKind::Counter => {
                assert("counter"@.len() == 7);
            },
            ExpressionKind::Conntrack => {
                assert("ct"@.len() == 2);
            },
            ExpressionKind::Immediate => {
                assert("immediate"@.len() == 9);
            },
            ExpressionKind::Log => {
                assert("log"@.len() == 3);
            },
            ExpressionKind::Lookup => {
                assert("lookup"@.len() == 6);
            },
            ExpressionKind::Masquerade => {
                assert("masq"@.len() == 4);
            },
            ExpressionKind::Meta => {
                assert("meta"@.len() == 4);
            },
            ExpressionKind::Nat => {
                assert("nat"@.len() == 3);
            },
            ExpressionKind::Payload => {
                assert("payload"@.len() == 7);
            },
            ExpressionKind::Range => {
                assert("range"@.len() == 5);
            },
            ExpressionKind::Reject => {
                assert("reject"@.len() == 6);
            },
        }
    }
}

/// An expression: a wire object that stands in a rule under its kind's name.
pub trait Expression: NfNetlinkAttribute {
    /// The kind of these expressions.
    spec fn kind() -> ExpressionKind;

    /// An expression of this type as one of the expressions of a rule.
    spec fn wrap(m: Self::V) -> ExpressionDataModel;

    /// The kind of these expressions.
    fn get_kind() -> (k: ExpressionKind)
        ensures
            k == Self::kind(),
    ;

    /// This expression as one of the expressions of a rule.
    fn into_data(self) -> (d: ExpressionData)
        ensures
            d@ == Self::wrap(self@),
    ;

    /// The name that these expressions carry in a rule.
    fn get_name() -> (s: &'static str)
        ensures
            s@ == Self::kind().name(),
    {
        Self::get_kind().get_name()
    }
}

} // verus!
