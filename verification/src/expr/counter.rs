//! The counter expression.

use vstd::prelude::*;
use crate::bytes::{be64, decode_be64, read_be64};
use crate::error::{BuilderError, DecodeError};
use crate::expr::kind::{Expression, ExpressionKind};
use crate::expr::raw::{ExpressionData, ExpressionDataModel};
use crate::field::{be64_field, lemma_decode_be64, write_be64_field};
use crate::schema::{
    Fields, Lossless, NfNetlinkAttribute, apply_from, fit_upto, lemma_apply_step,
    lemma_decode_fields, lemma_fit_upto, lemma_wire_split, wire_upto,
};
use crate::sys::{NFTA_COUNTER_BYTES, NFTA_COUNTER_PACKETS};

verus! {

/// Counts the packets and bytes that reach it. The kernel keeps both
/// numbers; a rule may give them initial values.
#[derive(Clone, Copy, Debug, PartialEq, Eq, Hash, Structural)]
pub struct Counter {
    /// Number of bytes counted.
    pub nb_bytes: Option<u64>,
    /// Number of packets counted.
    pub nb_packets: Option<u64>,
}

impl View for Counter {
    type V = Counter;

    open spec fn view(&self) -> Counter {
        *self
    }
}

impl Counter {
    /// A counter without initial values.
    pub fn new() -> (r: Self)
        ensures
            r == (Counter { nb_bytes: None, nb_packets: None }),
    {
        Counter { nb_bytes: None, nb_packets: None }
    }

    /// The same object with this field set: number of bytes counted.
    pub fn with_nb_bytes(self, v: u64) -> (r: Self)
        ensures
            r == (Counter { nb_bytes: Some(v), ..self }),
    {
        Counter { nb_bytes: Some(v), ..self }
    }

    /// Sets this field: number of bytes counted.
    pub fn set_nb_bytes(&mut self, v: u64)
        ensures
            *final(self) == (Counter { nb_bytes: Some(v), ..*old(self) }),
    {
        self.nb_bytes = Some(v);
    }

    /// This field, if it is present: number of bytes counted.
    pub fn get_nb_bytes(&self) -> (r: Option<&u64>)
        ensures
            r is Some <==> self.nb_bytes is Some,
            r is Some ==> *r.unwrap() == self.nb_bytes.unwrap(),
    {
        self.nb_bytes.as_ref()
    }

    /// The same object with this field set: number of packets counted.
    pub fn with_nb_packets(self, v: u64) -> (r: Self)
        ensures
            r == (Counter { nb_packets: Some(v), ..self }),
    {
        Counter { nb_packets: Some(v), ..self }
    }

    /// Sets this field: number of packets counted.
    pub fn set_nb_packets(&mut self, v: u64)
        ensures
            *final(self) == (Counter { nb_packets: Some(v), ..*old(self) }),
    {
        self.nb_packets = Some(v);
    }

    /// This field, if it is present: number of packets counted.
    pub fn get_nb_packets(&self) -> (r: Option<&u64>)
        ensures
            r is Some <==> self.nb_packets is Some,
            r is Some ==> *r.unwrap() == self.nb_packets.unwrap(),
    {
        self.nb_packets.as_ref()
    }
}

impl Default for Counter {
    fn default() -> (r: Self)
        ensures
            r@ == <Counter as NfNetlinkAttribute>::empty_model(),
    {
        <Counter as NfNetlinkAttribute>::empty()
    }
}

impl NfNetlinkAttribute for Counter {
    open spec fn fields(m: Counter) -> Fields {
        seq![
            be64_field(NFTA_COUNTER_BYTES, m.nb_bytes),
            be64_field(NFTA_COUNTER_PACKETS, m.nb_packets),
        ]
    }

    open spec fn empty_model() -> Counter {
        Counter { nb_bytes: None, nb_packets: None }
    }

    open spec fn apply_model(m: Counter, code: u16, payload: Seq<u8>) -> Result<
        Counter,
        DecodeError,
    > {
        if code == NFTA_COUNTER_BYTES {
            match decode_be64(payload) {
                Err(e) => Err(e),
                Ok(v) => Ok(Counter { nb_bytes: Some(v), ..m }),
            }
        } else if code == NFTA_COUNTER_PACKETS {
            match decode_be64(payload) {
                Err(e) => Err(e),
                Ok(v) => Ok(Counter { nb_packets: Some(v), ..m }),
            }
        } else {
            Ok(m)
        }
    }

    fn empty() -> (r: Self) {
        Counter { nb_bytes: None, nb_packets: None }
    }

    fn write_payload(&self, buf: &mut Vec<u8>) -> (r: Result<(), BuilderError>) {
        let ghost fields = Self::fields(self@);
        proof {
            lemma_wire_split(fields, 2);
            assert(buf@ + wire_upto(fields, 0) =~= buf@);
            assert(fit_upto(fields, 0));
        }
        write_be64_field(buf, NFTA_COUNTER_BYTES, self.nb_bytes);
        assert(buf@ == old(buf)@ + wire_upto(fields, 1) && fit_upto(fields, 1));
        write_be64_field(buf, NFTA_COUNTER_PACKETS, self.nb_packets);
        assert(buf@ == old(buf)@ + wire_upto(fields, 2) && fit_upto(fields, 2));
        proof {
            lemma_fit_upto(fields, 2);
        }
        Ok(())
    }

    fn equals(&self, other: &Self) -> (b: bool) {
        *self == *other
    }

    fn decode_attribute(self, code: u16, payload: &[u8]) -> (r: Result<Self, DecodeError>) {
        if code == NFTA_COUNTER_BYTES {
            let v = read_be64(payload)?;
            Ok(Counter { nb_bytes: Some(v), ..self })
        } else if code == NFTA_COUNTER_PACKETS {
            let v = read_be64(payload)?;
            Ok(Counter { nb_packets: Some(v), ..self })
        } else {
            Ok(self)
        }
    }
}

impl Lossless for Counter {
    open spec fn valid(m: Counter) -> bool {
        true
    }

    proof fn lemma_roundtrip(m: Counter) {
        let fields = Self::fields(m);
        let s0 = Self::empty_model();
        lemma_decode_fields::<Self>(s0, fields, 0);
        let s1 = Counter { nb_bytes: m.nb_bytes, ..s0 };
        assert(apply_from::<Self>(s0, fields, 0) == apply_from::<Self>(
            s1,
            fields,
            1,
        )) by {
            if m.nb_bytes is Some {
                let payload = be64(m.nb_bytes.unwrap());
                lemma_decode_be64(m.nb_bytes.unwrap());
                assert(Self::apply_model(s0, NFTA_COUNTER_BYTES, payload) == Ok::<
                    Counter,
                    DecodeError,
                >(s1));
            }
            lemma_apply_step::<Self>(s0, s1, fields, 0);
        }
        let s2 = Counter { nb_packets: m.nb_packets, ..s1 };
        assert(apply_from::<Self>(s1, fields, 1) == apply_from::<Self>(
            s2,
            fields,
            2,
        )) by {
            if m.nb_packets is Some {
                let payload = be64(m.nb_packets.unwrap());
                lemma_decode_be64(m.nb_packets.unwrap());
                assert(Self::apply_model(s1, NFTA_COUNTER_PACKETS, payload) == Ok::<
                    Counter,
                    DecodeError,
                >(s2));
            }
            lemma_apply_step::<Self>(s1, s2, fields, 1);
        }
        assert(s2 == m);
    }
}

impl Expression for Counter {
    open spec fn kind() -> ExpressionKind {
        ExpressionKind::Counter
    }

    open spec fn wrap(m: Counter) -> ExpressionDataModel {
        ExpressionDataModel::Counter(m)
    }

    fn get_kind() -> (k: ExpressionKind) {
        ExpressionKind::Counter
    }

    fn into_data(self) -> (d: ExpressionData) {
        ExpressionData::Counter(self)
    }
}

} // verus!
