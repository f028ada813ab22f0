//! The expressions that a rule is made of: its conditions and actions.

pub mod bitwise;
pub mod cmp;
pub mod counter;
pub mod ct;
pub mod immediate;
pub mod kind;
pub mod list;
pub mod log;
pub mod lookup;
pub mod masquerade;
pub mod meta;
pub mod payload;
pub mod range;
pub mod raw;
pub mod register;
pub mod reject;
pub mod translation;

pub use bitwise::{Bitwise, BitwiseModel};
pub use cmp::{Cmp, CmpModel, CmpOp};
pub use counter::Counter;
pub use ct::{Conntrack, ConntrackKey};
pub use immediate::{Immediate, ImmediateModel, VerdictKind};
pub use kind::{Expression, ExpressionKind};
pub use list::ExpressionList;
pub use log::{Log, LogModel};
pub use lookup::{Lookup, LookupModel};
pub use masquerade::Masquerade;
pub use meta::{Meta, MetaType};
pub use payload::{Payload, PayloadBase};
pub use range::{Range, RangeModel};
pub use raw::{ExpressionData, ExpressionDataModel, RawExpression, RawExpressionModel};
pub use register::Register;
pub use reject::{IcmpCode, Reject, RejectType};
pub use translation::{Nat, NatType};
