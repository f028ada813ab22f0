//! The expression list of a rule: its expressions in the order in which the
//! kernel runs them.

use vstd::prelude::*;
use crate::expr::kind::Expression;
use crate::expr::raw::{raw_model_of, RawExpression};
use crate::list::NfNetlinkList;

verus! {

/// The expressions of a rule, first to last.
pub type ExpressionList = NfNetlinkList<RawExpression>;

impl NfNetlinkList<RawExpression> {
    /// Appends an expression, under the name of its kind. The expressions
    /// before it stay where they are.
    pub fn add_value<E: Expression>(&mut self, e: E)
        ensures
            final(self)@ == old(self)@.push(raw_model_of::<E>(e@)),
    {
        self.push(RawExpression::new(e));
    }
}

} // verus!
