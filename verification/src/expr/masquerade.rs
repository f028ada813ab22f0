//! The masquerade expression.

use vstd::prelude::*;
use crate::error::{BuilderError, DecodeError};
use crate::expr::kind::{Expression, ExpressionKind};
use crate::expr::raw::{ExpressionData, ExpressionDataModel};
use crate::schema::{Fields, Lossless, NfNetlinkAttribute, lemma_decode_fields};

verus! {

/// Replaces the source address of the packet by that of the outgoing
/// interface. It has no field.
#[derive(Clone, Copy, Debug, PartialEq, Eq, Hash, Structural)]
pub struct Masquerade {
}

impl View for Masquerade {
    type V = Masquerade;

    open spec fn view(&self) -> Masquerade {
        *self
    }
}

impl Masquerade {
    /// The masquerade expression.
    pub fn new() -> (r: Self)
        ensures
            r == (Masquerade {  }),
    {
        Masquerade {  }
    }
}

impl Default for Masquerade {
    fn default() -> (r: Self)
        ensures
            r@ == <Masquerade as NfNetlinkAttribute>::empty_model(),
    {
        <Masquerade as NfNetlinkAttribute>::empty()
    }
}

impl NfNetlinkAttribute for Masquerade {
    open spec fn fields(m: Masquerade) -> Fields {
        Seq::empty()
    }

    open spec fn empty_model() -> Masquerade {
        Masquerade {  }
    }

    open spec fn apply_model(m: Masquerade, code: u16, payload: Seq<u8>) -> Result<
        Masquerade,
        DecodeError,
    > {
        Ok(m)
    }

    fn empty() -> (r: Self) {
        Masquerade {  }
    }

    fn write_payload(&self, buf: &mut Vec<u8>) -> (r: Result<(), BuilderError>) {
        assert(buf@ + Seq::<u8>::empty() =~= buf@);
        Ok(())
    }

    fn equals(&self, other: &Self) -> (b: bool) {
        *self == *other
    }

    fn decode_attribute(self, code: u16, payload: &[u8]) -> (r: Result<Self, DecodeError>) {
        Ok(self)
    }
}

impl Lossless for Masquerade {
    open spec fn valid(m: Masquerade) -> bool {
        true
    }

    proof fn lemma_roundtrip(m: Masquerade) {
        lemma_decode_fields::<Self>(Self::empty_model(), Self::fields(m), 0);
    }
}

impl Expression for Masquerade {
    open spec fn kind() -> ExpressionKind {
        ExpressionKind::Masquerade
    }

    open spec fn wrap(m: Masquerade) -> ExpressionDataModel {
        ExpressionDataModel::Masquerade(m)
    }

    fn get_kind() -> (k: ExpressionKind) {
        ExpressionKind::Masquerade
    }

    fn into_data(self) -> (d: ExpressionData) {
        ExpressionData::Masquerade(self)
    }
}

} // verus!
