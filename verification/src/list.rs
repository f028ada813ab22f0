//! Lists of wire objects: one nested attribute for every entry, in the order
//! of the list.

use vstd::prelude::*;
use crate::attr::{lemma_nested_type_code, nested_type};
use crate::error::{BuilderError, DecodeError};
use crate::field::{lemma_decode_nested, write_nested};
use crate::schema::{
    apply_from, decode_model, deserialize, field_fits, fields_wire, fit_from, lemma_decode_fields,
    lemma_fit_all, lemma_unfit_at, lemma_wire_split, wire_upto, Attr, Fields, Lossless,
    NfNetlinkAttribute,
};
use crate::sys::NFTA_LIST_ELEM;

verus! {

/// A list of wire objects. The order of the entries is part of the list.
#[derive(Clone, Debug, PartialEq, Eq, Hash)]
pub struct NfNetlinkList<T> {
    /// The entries of the list, first to last.
    pub objs: Vec<T>,
}

impl<T: NfNetlinkAttribute> View for NfNetlinkList<T> {
    type V = Seq<T::V>;

    open spec fn view(&self) -> Seq<T::V> {
        self.objs@.map_values(|e: T| e@)
    }
}

impl<T: NfNetlinkAttribute> NfNetlinkList<T> {
    /// The list without any entry.
    pub fn new() -> (r: Self)
        ensures
            r@ == Seq::<T::V>::empty(),
    {
        let r = NfNetlinkList { objs: Vec::new() };
        assert(r@ =~= Seq::<T::V>::empty());
        r
    }

    /// Appends an entry. The entries before it stay where they are.
    pub fn push(&mut self, e: T)
        ensures
            final(self)@ == old(self)@.push(e@),
    {
        self.objs.push(e);
        assert(self@ =~= old(self)@.push(e@));
    }

    /// Number of entries in the list.
    pub fn len(&self) -> (n: usize)
        ensures
            n == self@.len(),
    {
        self.objs.len()
    }

    /// The `i`-th entry of the list.
    pub fn get(&self, i: usize) -> (r: &T)
        requires
            i < self@.len(),
        ensures
            r@ == self@[i as int],
    {
        &self.objs[i]
    }
}

/// The attribute of one entry of a list.
pub open spec fn elem_field<T: NfNetlinkAttribute>(m: T::V) -> Option<Attr> {
    Some(Attr { ty: nested_type(NFTA_LIST_ELEM), payload: fields_wire(T::fields(m)) })
}

impl<T: NfNetlinkAttribute> NfNetlinkAttribute for NfNetlinkList<T> {
    /// One nested attribute for every entry, in the order of the list.
    open spec fn fields(m: Seq<T::V>) -> Fields {
        Seq::new(m.len(), |i: int| elem_field::<T>(m[i]))
    }

    open spec fn empty_model() -> Seq<T::V> {
        Seq::empty()
    }

    /// Every entry that is read is appended to the list.
    open spec fn apply_model(m: Seq<T::V>, code: u16, payload: Seq<u8>) -> Result<
        Seq<T::V>,
        DecodeError,
    > {
        if code == NFTA_LIST_ELEM {
            match decode_model::<T>(payload) {
                Err(e) => Err(e),
                Ok(v) => Ok(m.push(v)),
            }
        } else {
            Ok(m)
        }
    }

    fn empty() -> (r: Self) {
        NfNetlinkList::new()
    }

    fn write_payload(&self, buf: &mut Vec<u8>) -> (r: Result<(), BuilderError>) {
        let ghost fields = Self::fields(self@);
        let n = self.objs.len();
        let mut i: usize = 0;
        proof {
            assert(buf@ + wire_upto(fields, 0) =~= buf@);
        }
        while i < n
            invariant
                i <= n,
                n == self.objs@.len(),
                fields == Self::fields(self@),
                fields.len() == n,
                buf@ == old(buf)@ + wire_upto(fields, i as int),
                forall|j: int| 0 <= j < i ==> field_fits(#[trigger] fields[j]),
            decreases n - i,
        {
            match write_nested(buf, NFTA_LIST_ELEM, &self.objs[i]) {
                Err(e) => {
                    proof {
                        lemma_unfit_at(fields, 0, i as int);
                    }
                    return Err(e);
                },
                Ok(()) => {},
            }
            proof {
                assert(buf@ =~= old(buf)@ + wire_upto(fields, i + 1));
            }
            i += 1;
        }
        proof {
            lemma_wire_split(fields, n as int);
            lemma_fit_all(fields, 0);
        }
        Ok(())
    }

    fn equals(&self, other: &Self) -> (b: bool) {
        let n = self.objs.len();
        if n != other.objs.len() {
            assert(self@.len() != other@.len());
            return false;
        }
        let mut i: usize = 0;
        while i < n
            invariant
                i <= n,
                n == self.objs@.len(),
                n == other.objs@.len(),
                forall|k: int| 0 <= k < i ==> self.objs@[k]@ == other.objs@[k]@,
            decreases n - i,
        {
            if !self.objs[i].equals(&other.objs[i]) {
                assert(self@[i as int] != other@[i as int]);
                return false;
            }
            i += 1;
        }
        assert(self@ =~= other@);
        true
    }

    fn decode_attribute(self, code: u16, payload: &[u8]) -> (r: Result<Self, DecodeError>) {
        if code == NFTA_LIST_ELEM {
            let v = deserialize::<T>(payload)?;
            let mut list = self;
            list.push(v);
            Ok(list)
        } else {
            Ok(self)
        }
    }
}

/// Taking in the entries of a list from the `i`-th on, after the entries
/// before it, gives the whole list, in its order.
proof fn lemma_list_apply<T: Lossless>(m: Seq<T::V>, i: int)
    requires
        0 <= i <= m.len(),
        forall|k: int| 0 <= k < m.len() ==> T::valid(#[trigger] m[k]),
        fit_from(NfNetlinkList::<T>::fields(m), i),
    ensures
        apply_from::<NfNetlinkList<T>>(m.take(i), NfNetlinkList::<T>::fields(m), i) == Ok::<
            Seq<T::V>,
            DecodeError,
        >(m),
    decreases m.len() - i,
{
    if i == m.len() {
        assert(m.take(i) =~= m);
    } else {
        lemma_nested_type_code(NFTA_LIST_ELEM);
        lemma_decode_nested::<T>(m[i]);
        assert(m.take(i).push(m[i]) =~= m.take(i + 1));
        lemma_list_apply::<T>(m, i + 1);
    }
}

impl<T: Lossless> Lossless for NfNetlinkList<T> {
    open spec fn valid(m: Seq<T::V>) -> bool {
        forall|i: int| 0 <= i < m.len() ==> T::valid(#[trigger] m[i])
    }

    /// The list that is read back holds the same entries in the same order.
    proof fn lemma_roundtrip(m: Seq<T::V>) {
        lemma_decode_fields::<Self>(Self::empty_model(), Self::fields(m), 0);
        assert(m.take(0) =~= Self::empty_model());
        lemma_list_apply::<T>(m, 0);
    }
}

} // verus!
