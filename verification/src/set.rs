//! Sets and their elements.

use vstd::prelude::*;
use crate::attr::lemma_nested_type_code;
use crate::bytes::{be32, decode_be32, read_be32};
use crate::data::{NfNetlinkData, NfNetlinkDataModel};
use crate::error::{BuilderError, DecodeError};
use crate::family::ProtocolFamily;
use crate::field::{
    be32_field, bytes_field, c_string, decode_string, lemma_decode_be32, lemma_decode_nested,
    lemma_decode_string, model_fields, nested_field, opt_bytes_eq, opt_model, opt_object_eq,
    opt_string_eq, read_bytes, read_string, string_field, write_be32_field, write_bytes_field,
    write_nested_field, write_string_field,
};
use crate::list::NfNetlinkList;
use crate::nlmsg::NfNetlinkObject;
use crate::query::{
    Error, QueryModel, QuerySession, QueryState, dump_request, filter_error, filter_fits,
};
use crate::schema::{
    Fields, Lossless, NfNetlinkAttribute, apply_from, decode_model, deserialize, fields_wire,
    fit_upto, lemma_apply_step, lemma_decode_fields, lemma_fit_each, lemma_fit_upto,
    lemma_unfit_at, lemma_wire_split, wire_upto,
};
use crate::sys::{
    NFTA_SET_ELEM_KEY, NFTA_SET_ELEM_LIST_ELEMENTS, NFTA_SET_ELEM_LIST_SET,
    NFTA_SET_ELEM_LIST_SET_ID, NFTA_SET_ELEM_LIST_TABLE, NFTA_SET_FLAGS, NFTA_SET_ID,
    NFTA_SET_KEY_LEN, NFTA_SET_KEY_TYPE, NFTA_SET_NAME, NFTA_SET_TABLE, NFTA_SET_USERDATA,
    NFT_MSG_DELSET, NFT_MSG_DELSETELEM, NFT_MSG_GETSET, NFT_MSG_GETSETELEM, NFT_MSG_NEWSET,
    NFT_MSG_NEWSETELEM, NLM_F_CREATE,
};
use crate::table::{Table, TableModel};

verus! {

/// A set: a collection of values of one type, which rules look values up
/// in. It knows its table by name and family.
#[derive(Clone, Debug, PartialEq, Eq, Hash)]
pub struct NftSet {
    /// The address family that the object belongs to.
    pub family: ProtocolFamily,
    /// Name of the table that the set is in.
    pub table: Option<String>,
    /// Name of the set.
    pub name: Option<String>,
    /// Flags of the set.
    pub flags: Option<u32>,
    /// Type of the set's elements, as the kernel numbers the types.
    pub key_type: Option<u32>,
    /// Number of bytes of an element.
    pub key_len: Option<u32>,
    /// Id of the set, within a transaction.
    pub id: Option<u32>,
    /// Bytes that the kernel keeps with the set and does not read.
    pub userdata: Option<Vec<u8>>,
}

/// What a [`NftSet`] holds, as plain values.
pub struct NftSetModel {
    pub family: ProtocolFamily,
    pub table: Option<Seq<char>>,
    pub name: Option<Seq<char>>,
    pub flags: Option<u32>,
    pub key_type: Option<u32>,
    pub key_len: Option<u32>,
    pub id: Option<u32>,
    pub userdata: Option<Seq<u8>>,
}

impl View for NftSet {
    type V = NftSetModel;

    open spec fn view(&self) -> NftSetModel {
        NftSetModel {
            family: self.family,
            table: opt_model(self.table),
            name: opt_model(self.name),
            flags: self.flags,
            key_type: self.key_type,
            key_len: self.key_len,
            id: self.id,
            userdata: opt_model(self.userdata),
        }
    }
}

impl NftSet {
    /// A set in the given table, without a name yet. It takes the table's
    /// family and, if the table has one, the table's name.
    pub fn new(table: &Table) -> (r: Self)
        ensures
            r@ == (NftSetModel {
                family: table@.family,
                table: table@.name,
                ..<NftSet as NfNetlinkAttribute>::empty_model()
            }),
    {
        let name = match &table.name {
            None => None,
            Some(n) => Some(n.clone()),
        };
        NftSet {
            family: table.family,
            table: name,
            name: None,
            flags: None,
            key_type: None,
            key_len: None,
            id: None,
            userdata: None,
        }
    }

    /// The same object with this field set: name of the table that the set is in.
    pub fn with_table(self, v: String) -> (r: Self)
        ensures
            r@ == (NftSetModel { table: Some(v@), ..self@ }),
    {
        NftSet { table: Some(v), ..self }
    }

    /// Sets this field: name of the table that the set is in.
    pub fn set_table(&mut self, v: String)
        ensures
            final(self)@ == (NftSetModel { table: Some(v@), ..old(self)@ }),
    {
        self.table = Some(v);
    }

    /// This field, if it is present: name of the table that the set is in.
    pub fn get_table(&self) -> (r: Option<&String>)
        ensures
            r is Some <==> self.table is Some,
            r is Some ==> *r.unwrap() == self.table.unwrap(),
    {
        self.table.as_ref()
    }

    /// The same object with this field set: name of the set.
    pub fn with_name(self, v: String) -> (r: Self)
        ensures
            r@ == (NftSetModel { name: Some(v@), ..self@ }),
    {
        NftSet { name: Some(v), ..self }
    }

    /// Sets this field: name of the set.
    pub fn set_name(&mut self, v: String)
        ensures
            final(self)@ == (NftSetModel { name: Some(v@), ..old(self)@ }),
    {
        self.name = Some(v);
    }

    /// This field, if it is present: name of the set.
    pub fn get_name(&self) -> (r: Option<&String>)
        ensures
            r is Some <==> self.name is Some,
            r is Some ==> *r.unwrap() == self.name.unwrap(),
    {
        self.name.as_ref()
    }

    /// The same object with this field set: flags of the set.
    pub fn with_flags(self, v: u32) -> (r: Self)
        ensures
            r@ == (NftSetModel { flags: Some(v), ..self@ }),
    {
        NftSet { flags: Some(v), ..self }
    }

    /// Sets this field: flags of the set.
    pub fn set_flags(&mut self, v: u32)
        ensures
            final(self)@ == (NftSetModel { flags: Some(v), ..old(self)@ }),
    {
        self.flags = Some(v);
    }

    /// This field, if it is present: flags of the set.
    pub fn get_flags(&self) -> (r: Option<&u32>)
        ensures
            r is Some <==> self.flags is Some,
            r is Some ==> *r.unwrap() == self.flags.unwrap(),
    {
        self.flags.as_ref()
    }

    /// The same object with this field set: type of the set's elements, as the
    /// kernel numbers the types.
    pub fn with_key_type(self, v: u32) -> (r: Self)
        ensures
            r@ == (NftSetModel { key_type: Some(v), ..self@ }),
    {
        NftSet { key_type: Some(v), ..self }
    }

    /// Sets this field: type of the set's elements, as the kernel numbers the
    /// types.
    pub fn set_key_type(&mut self, v: u32)
        ensures
            final(self)@ == (NftSetModel { key_type: Some(v), ..old(self)@ }),
    {
        self.key_type = Some(v);
    }

    /// This field, if it is present: type of the set's elements, as the kernel
    /// numbers the types.
    pub fn get_key_type(&self) -> (r: Option<&u32>)
        ensures
            r is Some <==> self.key_type is Some,
            r is Some ==> *r.unwrap() == self.key_type.unwrap(),
    {
        self.key_type.as_ref()
    }

    /// The same object with this field set: number of bytes of an element.
    pub fn with_key_len(self, v: u32) -> (r: Self)
        ensures
            r@ == (NftSetModel { key_len: Some(v), ..self@ }),
    {
        NftSet { key_len: Some(v), ..self }
    }

    /// Sets this field: number of bytes of an element.
    pub fn set_key_len(&mut self, v: u32)
        ensures
            final(self)@ == (NftSetModel { key_len: Some(v), ..old(self)@ }),
    {
        self.key_len = Some(v);
    }

    /// This field, if it is present: number of bytes of an element.
    pub fn get_key_len(&self) -> (r: Option<&u32>)
        ensures
            r is Some <==> self.key_len is Some,
            r is Some ==> *r.unwrap() == self.key_len.unwrap(),
    {
        self.key_len.as_ref()
    }

    /// The same object with this field set: id of the set, within a transaction.
    pub fn with_id(self, v: u32) -> (r: Self)
        ensures
            r@ == (NftSetModel { id: Some(v), ..self@ }),
    {
        NftSet { id: Some(v), ..self }
    }

    /// Sets this field: id of the set, within a transaction.
    pub fn set_id(&mut self, v: u32)
        ensures
            final(self)@ == (NftSetModel { id: Some(v), ..old(self)@ }),
    {
        self.id = Some(v);
    }

    /// This field, if it is present: id of the set, within a transaction.
    pub fn get_id(&self) -> (r: Option<&u32>)
        ensures
            r is Some <==> self.id is Some,
            r is Some ==> *r.unwrap() == self.id.unwrap(),
    {
        self.id.as_ref()
    }

    /// The same object with this field set: bytes that the kernel keeps with the
    /// set and does not read.
    pub fn with_userdata(self, v: Vec<u8>) -> (r: Self)
        ensures
            r@ == (NftSetModel { userdata: Some(v@), ..self@ }),
    {
        NftSet { userdata: Some(v), ..self }
    }

    /// Sets this field: bytes that the kernel keeps with the set and does not
    /// read.
    pub fn set_userdata(&mut self, v: Vec<u8>)
        ensures
            final(self)@ == (NftSetModel { userdata: Some(v@), ..old(self)@ }),
    {
        self.userdata = Some(v);
    }

    /// This field, if it is present: bytes that the kernel keeps with the set and
    /// does not read.
    pub fn get_userdata(&self) -> (r: Option<&Vec<u8>>)
        ensures
            r is Some <==> self.userdata is Some,
            r is Some ==> *r.unwrap() == self.userdata.unwrap(),
    {
        self.userdata.as_ref()
    }

    /// The same object in the given family.
    pub fn with_family(self, family: ProtocolFamily) -> (r: Self)
        ensures
            r@ == (NftSetModel { family, ..self@ }),
    {
        NftSet { family, ..self }
    }
}

impl Default for NftSet {
    fn default() -> (r: Self)
        ensures
            r@ == <NftSet as NfNetlinkAttribute>::empty_model(),
    {
        <NftSet as NfNetlinkAttribute>::empty()
    }
}

impl NfNetlinkAttribute for NftSet {
    open spec fn fields(m: NftSetModel) -> Fields {
        seq![
            string_field(NFTA_SET_TABLE, m.table),
            string_field(NFTA_SET_NAME, m.name),
            be32_field(NFTA_SET_FLAGS, m.flags),
            be32_field(NFTA_SET_KEY_TYPE, m.key_type),
            be32_field(NFTA_SET_KEY_LEN, m.key_len),
            be32_field(NFTA_SET_ID, m.id),
            bytes_field(NFTA_SET_USERDATA, m.userdata),
        ]
    }

    open spec fn empty_model() -> NftSetModel {
        NftSetModel {
            family: ProtocolFamily::Unspec,
            table: None,
            name: None,
            flags: None,
            key_type: None,
            key_len: None,
            id: None,
            userdata: None,
        }
    }

    open spec fn apply_model(m: NftSetModel, code: u16, payload: Seq<u8>) -> Result<
        NftSetModel,
        DecodeError,
    > {
        if code == NFTA_SET_TABLE {
            match decode_string(payload) {
                Err(e) => Err(e),
                Ok(v) => Ok(NftSetModel { table: Some(v), ..m }),
            }
        } else if code == NFTA_SET_NAME {
            match decode_string(payload) {
                Err(e) => Err(e),
                Ok(v) => Ok(NftSetModel { name: Some(v), ..m }),
            }
        } else if code == NFTA_SET_FLAGS {
            match decode_be32(payload) {
                Err(e) => Err(e),
                Ok(v) => Ok(NftSetModel { flags: Some(v), ..m }),
            }
        } else if code == NFTA_SET_KEY_TYPE {
            match decode_be32(payload) {
                Err(e) => Err(e),
                Ok(v) => Ok(NftSetModel { key_type: Some(v), ..m }),
            }
        } else if code == NFTA_SET_KEY_LEN {
            match decode_be32(payload) {
                Err(e) => Err(e),
                Ok(v) => Ok(NftSetModel { key_len: Some(v), ..m }),
            }
        } else if code == NFTA_SET_ID {
            match decode_be32(payload) {
                Err(e) => Err(e),
                Ok(v) => Ok(NftSetModel { id: Some(v), ..m }),
            }
        } else if code == NFTA_SET_USERDATA {
            Ok(NftSetModel { userdata: Some(payload), ..m })
        } else {
            Ok(m)
        }
    }

    fn empty() -> (r: Self) {
        NftSet {
            family: ProtocolFamily::Unspec,
            table: None,
            name: None,
            flags: None,
            key_type: None,
            key_len: None,
            id: None,
            userdata: None,
        }
    }

    fn write_payload(&self, buf: &mut Vec<u8>) -> (r: Result<(), BuilderError>) {
        let ghost fields = Self::fields(self@);
        proof {
            lemma_wire_split(fields, 7);
            assert(buf@ + wire_upto(fields, 0) =~= buf@);
            assert(fit_upto(fields, 0));
        }
        match write_string_field(buf, NFTA_SET_TABLE, &self.table) {
            Err(e) => {
                proof {
                    lemma_unfit_at(fields, 0, 0);
                }
                return Err(e);
            },
            Ok(()) => {},
        }
        assert(buf@ == old(buf)@ + wire_upto(fields, 1) && fit_upto(fields, 1));
        match write_string_field(buf, NFTA_SET_NAME, &self.name) {
            Err(e) => {
                proof {
                    lemma_unfit_at(fields, 0, 1);
                }
                return Err(e);
            },
            Ok(()) => {},
        }
        assert(buf@ == old(buf)@ + wire_upto(fields, 2) && fit_upto(fields, 2));
        write_be32_field(buf, NFTA_SET_FLAGS, self.flags);
        assert(buf@ == old(buf)@ + wire_upto(fields, 3) && fit_upto(fields, 3));
        write_be32_field(buf, NFTA_SET_KEY_TYPE, self.key_type);
        assert(buf@ == old(buf)@ + wire_upto(fields, 4) && fit_upto(fields, 4));
        write_be32_field(buf, NFTA_SET_KEY_LEN, self.key_len);
        assert(buf@ == old(buf)@ + wire_upto(fields, 5) && fit_upto(fields, 5));
        write_be32_field(buf, NFTA_SET_ID, self.id);
        assert(buf@ == old(buf)@ + wire_upto(fields, 6) && fit_upto(fields, 6));
        match write_bytes_field(buf, NFTA_SET_USERDATA, &self.userdata) {
            Err(e) => {
                proof {
                    lemma_unfit_at(fields, 0, 6);
                }
                return Err(e);
            },
            Ok(()) => {},
        }
        assert(buf@ == old(buf)@ + wire_upto(fields, 7) && fit_upto(fields, 7));
        proof {
            lemma_fit_upto(fields, 7);
        }
        Ok(())
    }

    fn equals(&self, other: &Self) -> (b: bool) {
        let same_flags = match (self.flags, other.flags) {
            (None, None) => true,
            (Some(x), Some(y)) => x == y,
            _ => false,
        };
        let same_key_type = match (self.key_type, other.key_type) {
            (None, None) => true,
            (Some(x), Some(y)) => x == y,
            _ => false,
        };
        let same_key_len = match (self.key_len, other.key_len) {
            (None, None) => true,
            (Some(x), Some(y)) => x == y,
            _ => false,
        };
        let same_id = match (self.id, other.id) {
            (None, None) => true,
            (Some(x), Some(y)) => x == y,
            _ => false,
        };
        self.family == other.family
            && opt_string_eq(&self.table, &other.table)
            && opt_string_eq(&self.name, &other.name)
            && same_flags
            && same_key_type
            && same_key_len
            && same_id
            && opt_bytes_eq(&self.userdata, &other.userdata)
    }

    fn decode_attribute(self, code: u16, payload: &[u8]) -> (r: Result<Self, DecodeError>) {
        if code == NFTA_SET_TABLE {
            let v = read_string(payload)?;
            Ok(NftSet { table: Some(v), ..self })
        } else if code == NFTA_SET_NAME {
            let v = read_string(payload)?;
            Ok(NftSet { name: Some(v), ..self })
        } else if code == NFTA_SET_FLAGS {
            let v = read_be32(payload)?;
            Ok(NftSet { flags: Some(v), ..self })
        } else if code == NFTA_SET_KEY_TYPE {
            let v = read_be32(payload)?;
            Ok(NftSet { key_type: Some(v), ..self })
        } else if code == NFTA_SET_KEY_LEN {
            let v = read_be32(payload)?;
            Ok(NftSet { key_len: Some(v), ..self })
        } else if code == NFTA_SET_ID {
            let v = read_be32(payload)?;
            Ok(NftSet { id: Some(v), ..self })
        } else if code == NFTA_SET_USERDATA {
            let v = read_bytes(payload);
            Ok(NftSet { userdata: Some(v), ..self })
        } else {
            Ok(self)
        }
    }
}

impl NfNetlinkObject for NftSet {
    open spec fn family_of(m: NftSetModel) -> ProtocolFamily {
        m.family
    }

    open spec fn with_family_model(m: NftSetModel, family: ProtocolFamily) -> NftSetModel {
        NftSetModel { family, ..m }
    }

    open spec fn msg_type_add() -> u8 {
        NFT_MSG_NEWSET
    }

    open spec fn msg_type_del() -> u8 {
        NFT_MSG_DELSET
    }

    open spec fn msg_type_get() -> u8 {
        NFT_MSG_GETSET
    }

    /// The object is created if it does not exist yet.
    open spec fn add_flags() -> u16 {
        NLM_F_CREATE
    }

    open spec fn valid(m: NftSetModel) -> bool {
        true
    }

    fn get_family(&self) -> (f: ProtocolFamily) {
        self.family
    }

    fn set_family(&mut self, family: ProtocolFamily) {
        self.family = family;
    }

    fn get_msg_type_add() -> (t: u8) {
        NFT_MSG_NEWSET
    }

    fn get_msg_type_del() -> (t: u8) {
        NFT_MSG_DELSET
    }

    fn get_msg_type_get() -> (t: u8) {
        NFT_MSG_GETSET
    }

    fn get_add_flags(&self) -> (f: u16) {
        NLM_F_CREATE
    }

    proof fn lemma_family(m: NftSetModel, family: ProtocolFamily) {
    }

    proof fn lemma_object_roundtrip(m: NftSetModel) {
        let fields = Self::fields(m);
        let s0 = Self::with_family_model(Self::empty_model(), m.family);
        lemma_decode_fields::<Self>(s0, fields, 0);
        let s1 = NftSetModel { table: m.table, ..s0 };
        assert(apply_from::<Self>(s0, fields, 0) == apply_from::<Self>(
            s1,
            fields,
            1,
        )) by {
            if m.table is Some {
                let payload = c_string(m.table.unwrap());
                lemma_decode_string(m.table.unwrap());
                assert(Self::apply_model(s0, NFTA_SET_TABLE, payload) == Ok::<
                    NftSetModel,
                    DecodeError,
                >(s1));
            }
            lemma_apply_step::<Self>(s0, s1, fields, 0);
        }
        let s2 = NftSetModel { name: m.name, ..s1 };
        assert(apply_from::<Self>(s1, fields, 1) == apply_from::<Self>(
            s2,
            fields,
            2,
        )) by {
            if m.name is Some {
                let payload = c_string(m.name.unwrap());
                lemma_decode_string(m.name.unwrap());
                assert(Self::apply_model(s1, NFTA_SET_NAME, payload) == Ok::<
                    NftSetModel,
                    DecodeError,
                >(s2));
            }
            lemma_apply_step::<Self>(s1, s2, fields, 1);
        }
        let s3 = NftSetModel { flags: m.flags, ..s2 };
        assert(apply_from::<Self>(s2, fields, 2) == apply_from::<Self>(
            s3,
            fields,
            3,
        )) by {
            if m.flags is Some {
                let payload = be32(m.flags.unwrap());
                lemma_decode_be32(m.flags.unwrap());
                assert(Self::apply_model(s2, NFTA_SET_FLAGS, payload) == Ok::<
                    NftSetModel,
                    DecodeError,
                >(s3));
            }
            lemma_apply_step::<Self>(s2, s3, fields, 2);
        }
        let s4 = NftSetModel { key_type: m.key_type, ..s3 };
        assert(apply_from::<Self>(s3, fields, 3) == apply_from::<Self>(
            s4,
            fields,
            4,
        )) by {
            if m.key_type is Some {
                let payload = be32(m.key_type.unwrap());
                lemma_decode_be32(m.key_type.unwrap());
                assert(Self::apply_model(s3, NFTA_SET_KEY_TYPE, payload) == Ok::<
                    NftSetModel,
                    DecodeError,
                >(s4));
            }
            lemma_apply_step::<Self>(s3, s4, fields, 3);
        }
        let s5 = NftSetModel { key_len: m.key_len, ..s4 };
        assert(apply_from::<Self>(s4, fields, 4) == apply_from::<Self>(
            s5,
            fields,
            5,
        )) by {
            if m.key_len is Some {
                let payload = be32(m.key_len.unwrap());
                lemma_decode_be32(m.key_len.unwrap());
                assert(Self::apply_model(s4, NFTA_SET_KEY_LEN, payload) == Ok::<
                    NftSetModel,
                    DecodeError,
                >(s5));
            }
            lemma_apply_step::<Self>(s4, s5, fields, 4);
        }
        let s6 = NftSetModel { id: m.id, ..s5 };
        assert(apply_from::<Self>(s5, fields, 5) == apply_from::<Self>(
            s6,
            fields,
            6,
        )) by {
            if m.id is Some {
                let payload = be32(m.id.unwrap());
                lemma_decode_be32(m.id.unwrap());
                assert(Self::apply_model(s5, NFTA_SET_ID, payload) == Ok::<
                    NftSetModel,
                    DecodeError,
                >(s6));
            }
            lemma_apply_step::<Self>(s5, s6, fields, 5);
        }
        let s7 = NftSetModel { userdata: m.userdata, ..s6 };
        assert(apply_from::<Self>(s6, fields, 6) == apply_from::<Self>(
            s7,
            fields,
            7,
        )) by {
            if m.userdata is Some {
                let payload = m.userdata.unwrap();
                assert(Self::apply_model(s6, NFTA_SET_USERDATA, payload) == Ok::<
                    NftSetModel,
                    DecodeError,
                >(s7));
            }
            lemma_apply_step::<Self>(s6, s7, fields, 6);
        }
        assert(s7 == m);
    }
}

/// One element of a set.
#[derive(Clone, Debug, PartialEq, Eq, Hash)]
pub struct SetElement {
    /// The element's value.
    pub key: Option<NfNetlinkData>,
}

/// What a [`SetElement`] holds, as plain values.
pub struct SetElementModel {
    pub key: Option<NfNetlinkDataModel>,
}

impl View for SetElement {
    type V = SetElementModel;

    open spec fn view(&self) -> SetElementModel {
        SetElementModel {
            key: opt_model(self.key),
        }
    }
}

impl SetElement {
    /// The element with the given value.
    pub fn new(key: Vec<u8>) -> (r: Self)
        ensures
            r@ == (SetElementModel {
                key: Some(NfNetlinkDataModel { value: Some(key@), verdict: None }),
            }),
    {
        SetElement { key: Some(NfNetlinkData::from_value(key)) }
    }

    /// The same object with this field set: the element's value.
    pub fn with_key(self, v: NfNetlinkData) -> (r: Self)
        ensures
            r@ == (SetElementModel { key: Some(v@), ..self@ }),
    {
        SetElement { key: Some(v), ..self }
    }

    /// Sets this field: the element's value.
    pub fn set_key(&mut self, v: NfNetlinkData)
        ensures
            final(self)@ == (SetElementModel { key: Some(v@), ..old(self)@ }),
    {
        self.key = Some(v);
    }

    /// This field, if it is present: the element's value.
    pub fn get_key(&self) -> (r: Option<&NfNetlinkData>)
        ensures
            r is Some <==> self.key is Some,
            r is Some ==> *r.unwrap() == self.key.unwrap(),
    {
        self.key.as_ref()
    }
}

impl Default for SetElement {
    fn default() -> (r: Self)
        ensures
            r@ == <SetElement as NfNetlinkAttribute>::empty_model(),
    {
        <SetElement as NfNetlinkAttribute>::empty()
    }
}

impl NfNetlinkAttribute for SetElement {
    open spec fn fields(m: SetElementModel) -> Fields {
        seq![
            nested_field(NFTA_SET_ELEM_KEY, model_fields::<NfNetlinkData>(m.key)),
        ]
    }

    open spec fn empty_model() -> SetElementModel {
        SetElementModel { key: None }
    }

    open spec fn apply_model(m: SetElementModel, code: u16, payload: Seq<u8>) -> Result<
        SetElementModel,
        DecodeError,
    > {
        if code == NFTA_SET_ELEM_KEY {
            match decode_model::<NfNetlinkData>(payload) {
                Err(e) => Err(e),
                Ok(v) => Ok(SetElementModel { key: Some(v), ..m }),
            }
        } else {
            Ok(m)
        }
    }

    fn empty() -> (r: Self) {
        SetElement { key: None }
    }

    fn write_payload(&self, buf: &mut Vec<u8>) -> (r: Result<(), BuilderError>) {
        let ghost fields = Self::fields(self@);
        proof {
            lemma_wire_split(fields, 1);
            assert(buf@ + wire_upto(fields, 0) =~= buf@);
            assert(fit_upto(fields, 0));
        }
        match write_nested_field(buf, NFTA_SET_ELEM_KEY, &self.key) {
            Err(e) => {
                proof {
                    lemma_unfit_at(fields, 0, 0);
                }
                return Err(e);
            },
            Ok(()) => {},
        }
        assert(buf@ == old(buf)@ + wire_upto(fields, 1) && fit_upto(fields, 1));
        proof {
            lemma_fit_upto(fields, 1);
        }
        Ok(())
    }

    fn equals(&self, other: &Self) -> (b: bool) {
        opt_object_eq(&self.key, &other.key)
    }

    fn decode_attribute(self, code: u16, payload: &[u8]) -> (r: Result<Self, DecodeError>) {
        if code == NFTA_SET_ELEM_KEY {
            let v = deserialize::<NfNetlinkData>(payload)?;
            Ok(SetElement { key: Some(v), ..self })
        } else {
            Ok(self)
        }
    }
}

impl Lossless for SetElement {
    open spec fn valid(m: SetElementModel) -> bool {
        m.key is Some ==> NfNetlinkData::valid(m.key.unwrap())
    }

    proof fn lemma_roundtrip(m: SetElementModel) {
        let fields = Self::fields(m);
        let s0 = Self::empty_model();
        lemma_decode_fields::<Self>(s0, fields, 0);
        let s1 = SetElementModel { key: m.key, ..s0 };
        assert(apply_from::<Self>(s0, fields, 0) == apply_from::<Self>(
            s1,
            fields,
            1,
        )) by {
            if m.key is Some {
                let payload = fields_wire(NfNetlinkData::fields(m.key.unwrap()));
                lemma_fit_each(fields, 0, 0);
                lemma_nested_type_code(NFTA_SET_ELEM_KEY);
                lemma_decode_nested::<NfNetlinkData>(m.key.unwrap());
                assert(Self::apply_model(s0, NFTA_SET_ELEM_KEY, payload) == Ok::<
                    SetElementModel,
                    DecodeError,
                >(s1));
            }
            lemma_apply_step::<Self>(s0, s1, fields, 0);
        }
        assert(s1 == m);
    }
}

/// The elements of a set, in the order in which they were added.
pub type SetElements = NfNetlinkList<SetElement>;

/// Elements to add to a set, or to take out of it. The set is known by
/// its name and its table's.
#[derive(Clone, Debug, PartialEq, Eq, Hash)]
pub struct SetElementList {
    /// The address family that the object belongs to.
    pub family: ProtocolFamily,
    /// Name of the table that the set is in.
    pub table: Option<String>,
    /// Name of the set.
    pub set: Option<String>,
    /// The elements.
    pub elements: Option<SetElements>,
    /// Id of the set, within a transaction.
    pub set_id: Option<u32>,
}

/// What a [`SetElementList`] holds, as plain values.
pub struct SetElementListModel {
    pub family: ProtocolFamily,
    pub table: Option<Seq<char>>,
    pub set: Option<Seq<char>>,
    pub elements: Option<Seq<SetElementModel>>,
    pub set_id: Option<u32>,
}

impl View for SetElementList {
    type V = SetElementListModel;

    open spec fn view(&self) -> SetElementListModel {
        SetElementListModel {
            family: self.family,
            table: opt_model(self.table),
            set: opt_model(self.set),
            elements: opt_model(self.elements),
            set_id: self.set_id,
        }
    }
}

impl SetElementList {
    /// An empty list of elements for the given set. It takes the set's family,
    /// its table's name, its name and, if the set has one, its id.
    ///
    /// Fails exactly when the set has no table or no name yet.
    pub fn new(set: &NftSet) -> (r: Result<Self, BuilderError>)
        ensures
            r is Ok <==> set@.table is Some && set@.name is Some,
            r is Ok ==> r.unwrap()@ == (SetElementListModel {
                family: set@.family,
                table: set@.table,
                set: set@.name,
                elements: Some(Seq::empty()),
                set_id: set@.id,
            }),
            r is Err ==> r == Err::<Self, BuilderError>(BuilderError::MissingSetInformationError),
    {
        let table = match &set.table {
            Some(t) => t.clone(),
            None => {
                return Err(BuilderError::MissingSetInformationError);
            },
        };
        let name = match &set.name {
            Some(n) => n.clone(),
            None => {
                return Err(BuilderError::MissingSetInformationError);
            },
        };
        Ok(
            SetElementList {
                family: set.family,
                table: Some(table),
                set: Some(name),
                elements: Some(SetElements::new()),
                set_id: set.id,
            },
        )
    }

    /// Appends an element with the given value. The elements before it stay
    /// where they are.
    pub fn add(&mut self, key: Vec<u8>)
        ensures
            final(self)@ == (SetElementListModel {
                elements: Some(
                    elements_of(old(self)@).push(
                        SetElementModel {
                            key: Some(NfNetlinkDataModel { value: Some(key@), verdict: None }),
                        },
                    ),
                ),
                ..old(self)@
            }),
    {
        let mut elements = match self.elements.take() {
            Some(x) => x,
            None => SetElements::new(),
        };
        elements.push(SetElement::new(key));
        self.elements = Some(elements);
    }

    /// The same object with this field set: name of the table that the set is in.
    pub fn with_table(self, v: String) -> (r: Self)
        ensures
            r@ == (SetElementListModel { table: Some(v@), ..self@ }),
    {
        SetElementList { table: Some(v), ..self }
    }

    /// Sets this field: name of the table that the set is in.
    pub fn set_table(&mut self, v: String)
        ensures
            final(self)@ == (SetElementListModel { table: Some(v@), ..old(self)@ }),
    {
        self.table = Some(v);
    }

    /// This field, if it is present: name of the table that the set is in.
    pub fn get_table(&self) -> (r: Option<&String>)
        ensures
            r is Some <==> self.table is Some,
            r is Some ==> *r.unwrap() == self.table.unwrap(),
    {
        self.table.as_ref()
    }

    /// The same object with this field set: name of the set.
    pub fn with_set(self, v: String) -> (r: Self)
        ensures
            r@ == (SetElementListModel { set: Some(v@), ..self@ }),
    {
        SetElementList { set: Some(v), ..self }
    }

    /// Sets this field: name of the set.
    pub fn set_set(&mut self, v: String)
        ensures
            final(self)@ == (SetElementListModel { set: Some(v@), ..old(self)@ }),
    {
        self.set = Some(v);
    }

    /// This field, if it is present: name of the set.
    pub fn get_set(&self) -> (r: Option<&String>)
        ensures
            r is Some <==> self.set is Some,
            r is Some ==> *r.unwrap() == self.set.unwrap(),
    {
        self.set.as_ref()
    }

    /// The same object with this field set: the elements.
    pub fn with_elements(self, v: SetElements) -> (r: Self)
        ensures
            r@ == (SetElementListModel { elements: Some(v@), ..self@ }),
    {
        SetElementList { elements: Some(v), ..self }
    }

    /// Sets this field: the elements.
    pub fn set_elements(&mut self, v: SetElements)
        ensures
            final(self)@ == (SetElementListModel { elements: Some(v@), ..old(self)@ }),
    {
        self.elements = Some(v);
    }

    /// This field, if it is present: the elements.
    pub fn get_elements(&self) -> (r: Option<&SetElements>)
        ensures
            r is Some <==> self.elements is Some,
            r is Some ==> *r.unwrap() == self.elements.unwrap(),
    {
        self.elements.as_ref()
    }

    /// The same object with this field set: id of the set, within a transaction.
    pub fn with_set_id(self, v: u32) -> (r: Self)
        ensures
            r@ == (SetElementListModel { set_id: Some(v), ..self@ }),
    {
        SetElementList { set_id: Some(v), ..self }
    }

    /// Sets this field: id of the set, within a transaction.
    pub fn set_set_id(&mut self, v: u32)
        ensures
            final(self)@ == (SetElementListModel { set_id: Some(v), ..old(self)@ }),
    {
        self.set_id = Some(v);
    }

    /// This field, if it is present: id of the set, within a transaction.
    pub fn get_set_id(&self) -> (r: Option<&u32>)
        ensures
            r is Some <==> self.set_id is Some,
            r is Some ==> *r.unwrap() == self.set_id.unwrap(),
    {
        self.set_id.as_ref()
    }

    /// The same object in the given family.
    pub fn with_family(self, family: ProtocolFamily) -> (r: Self)
        ensures
            r@ == (SetElementListModel { family, ..self@ }),
    {
        SetElementList { family, ..self }
    }
}

impl Default for SetElementList {
    fn default() -> (r: Self)
        ensures
            r@ == <SetElementList as NfNetlinkAttribute>::empty_model(),
    {
        <SetElementList as NfNetlinkAttribute>::empty()
    }
}

impl NfNetlinkAttribute for SetElementList {
    open spec fn fields(m: SetElementListModel) -> Fields {
        seq![
            string_field(NFTA_SET_ELEM_LIST_TABLE, m.table),
            string_field(NFTA_SET_ELEM_LIST_SET, m.set),
            nested_field(NFTA_SET_ELEM_LIST_ELEMENTS, model_fields::<SetElements>(m.elements)),
            be32_field(NFTA_SET_ELEM_LIST_SET_ID, m.set_id),
        ]
    }

    open spec fn empty_model() -> SetElementListModel {
        SetElementListModel {
            family: ProtocolFamily::Unspec,
            table: None,
            set: None,
            elements: None,
            set_id: None,
        }
    }

    open spec fn apply_model(m: SetElementListModel, code: u16, payload: Seq<u8>) -> Result<
        SetElementListModel,
        DecodeError,
    > {
        if code == NFTA_SET_ELEM_LIST_TABLE {
            match decode_string(payload) {
                Err(e) => Err(e),
                Ok(v) => Ok(SetElementListModel { table: Some(v), ..m }),
            }
        } else if code == NFTA_SET_ELEM_LIST_SET {
            match decode_string(payload) {
                Err(e) => Err(e),
                Ok(v) => Ok(SetElementListModel { set: Some(v), ..m }),
            }
        } else if code == NFTA_SET_ELEM_LIST_ELEMENTS {
            match decode_model::<SetElements>(payload) {
                Err(e) => Err(e),
                Ok(v) => Ok(SetElementListModel { elements: Some(v), ..m }),
            }
        } else if code == NFTA_SET_ELEM_LIST_SET_ID {
            match decode_be32(payload) {
                Err(e) => Err(e),
                Ok(v) => Ok(SetElementListModel { set_id: Some(v), ..m }),
            }
        } else {
            Ok(m)
        }
    }

    fn empty() -> (r: Self) {
        SetElementList {
            family: ProtocolFamily::Unspec,
            table: None,
            set: None,
            elements: None,
            set_id: None,
        }
    }

    fn write_payload(&self, buf: &mut Vec<u8>) -> (r: Result<(), BuilderError>) {
        let ghost fields = Self::fields(self@);
        proof {
            lemma_wire_split(fields, 4);
            assert(buf@ + wire_upto(fields, 0) =~= buf@);
            assert(fit_upto(fields, 0));
        }
        match write_string_field(buf, NFTA_SET_ELEM_LIST_TABLE, &self.table) {
            Err(e) => {
                proof {
                    lemma_unfit_at(fields, 0, 0);
                }
                return Err(e);
            },
            Ok(()) => {},
        }
        assert(buf@ == old(buf)@ + wire_upto(fields, 1) && fit_upto(fields, 1));
        match write_string_field(buf, NFTA_SET_ELEM_LIST_SET, &self.set) {
            Err(e) => {
                proof {
                    lemma_unfit_at(fields, 0, 1);
                }
                return Err(e);
            },
            Ok(()) => {},
        }
        assert(buf@ == old(buf)@ + wire_upto(fields, 2) && fit_upto(fields, 2));
        match write_nested_field(buf, NFTA_SET_ELEM_LIST_ELEMENTS, &self.elements) {
            Err(e) => {
                proof {
                    lemma_unfit_at(fields, 0, 2);
                }
                return Err(e);
            },
            Ok(()) => {},
        }
        assert(buf@ == old(buf)@ + wire_upto(fields, 3) && fit_upto(fields, 3));
        write_be32_field(buf, NFTA_SET_ELEM_LIST_SET_ID, self.set_id);
        assert(buf@ == old(buf)@ + wire_upto(fields, 4) && fit_upto(fields, 4));
        proof {
            lemma_fit_upto(fields, 4);
        }
        Ok(())
    }

    fn equals(&self, other: &Self) -> (b: bool) {
        let same_set_id = match (self.set_id, other.set_id) {
            (None, None) => true,
            (Some(x), Some(y)) => x == y,
            _ => false,
        };
        self.family == other.family
            && opt_string_eq(&self.table, &other.table)
            && opt_string_eq(&self.set, &other.set)
            && opt_object_eq(&self.elements, &other.elements)
            && same_set_id
    }

    fn decode_attribute(self, code: u16, payload: &[u8]) -> (r: Result<Self, DecodeError>) {
        if code == NFTA_SET_ELEM_LIST_TABLE {
            let v = read_string(payload)?;
            Ok(SetElementList { table: Some(v), ..self })
        } else if code == NFTA_SET_ELEM_LIST_SET {
            let v = read_string(payload)?;
            Ok(SetElementList { set: Some(v), ..self })
        } else if code == NFTA_SET_ELEM_LIST_ELEMENTS {
            let v = deserialize::<SetElements>(payload)?;
            Ok(SetElementList { elements: Some(v), ..self })
        } else if code == NFTA_SET_ELEM_LIST_SET_ID {
            let v = read_be32(payload)?;
            Ok(SetElementList { set_id: Some(v), ..self })
        } else {
            Ok(self)
        }
    }
}

impl NfNetlinkObject for SetElementList {
    open spec fn family_of(m: SetElementListModel) -> ProtocolFamily {
        m.family
    }

    open spec fn with_family_model(
        m: SetElementListModel,
        family: ProtocolFamily,
    ) -> SetElementListModel {
        SetElementListModel { family, ..m }
    }

    open spec fn msg_type_add() -> u8 {
        NFT_MSG_NEWSETELEM
    }

    open spec fn msg_type_del() -> u8 {
        NFT_MSG_DELSETELEM
    }

    open spec fn msg_type_get() -> u8 {
        NFT_MSG_GETSETELEM
    }

    /// The object is created if it does not exist yet.
    open spec fn add_flags() -> u16 {
        NLM_F_CREATE
    }

    open spec fn valid(m: SetElementListModel) -> bool {
        m.elements is Some ==> <SetElements as Lossless>::valid(m.elements.unwrap())
    }

    fn get_family(&self) -> (f: ProtocolFamily) {
        self.family
    }

    fn set_family(&mut self, family: ProtocolFamily) {
        self.family = family;
    }

    fn get_msg_type_add() -> (t: u8) {
        NFT_MSG_NEWSETELEM
    }

    fn get_msg_type_del() -> (t: u8) {
        NFT_MSG_DELSETELEM
    }

    fn get_msg_type_get() -> (t: u8) {
        NFT_MSG_GETSETELEM
    }

    fn get_add_flags(&self) -> (f: u16) {
        NLM_F_CREATE
    }

    proof fn lemma_family(m: SetElementListModel, family: ProtocolFamily) {
    }

    proof fn lemma_object_roundtrip(m: SetElementListModel) {
        let fields = Self::fields(m);
        let s0 = Self::with_family_model(Self::empty_model(), m.family);
        lemma_decode_fields::<Self>(s0, fields, 0);
        let s1 = SetElementListModel { table: m.table, ..s0 };
        assert(apply_from::<Self>(s0, fields, 0) == apply_from::<Self>(
            s1,
            fields,
            1,
        )) by {
            if m.table is Some {
                let payload = c_string(m.table.unwrap());
                lemma_decode_string(m.table.unwrap());
                assert(Self::apply_model(s0, NFTA_SET_ELEM_LIST_TABLE, payload) == Ok::<
                    SetElementListModel,
                    DecodeError,
                >(s1));
            }
            lemma_apply_step::<Self>(s0, s1, fields, 0);
        }
        let s2 = SetElementListModel { set: m.set, ..s1 };
        assert(apply_from::<Self>(s1, fields, 1) == apply_from::<Self>(
            s2,
            fields,
            2,
        )) by {
            if m.set is Some {
                let payload = c_string(m.set.unwrap());
                lemma_decode_string(m.set.unwrap());
                assert(Self::apply_model(s1, NFTA_SET_ELEM_LIST_SET, payload) == Ok::<
                    SetElementListModel,
                    DecodeError,
                >(s2));
            }
            lemma_apply_step::<Self>(s1, s2, fields, 1);
        }
        let s3 = SetElementListModel { elements: m.elements, ..s2 };
        assert(apply_from::<Self>(s2, fields, 2) == apply_from::<Self>(
            s3,
            fields,
            3,
        )) by {
            if m.elements is Some {
                let payload = fields_wire(SetElements::fields(m.elements.unwrap()));
                lemma_fit_each(fields, 0, 2);
                lemma_nested_type_code(NFTA_SET_ELEM_LIST_ELEMENTS);
                lemma_decode_nested::<SetElements>(m.elements.unwrap());
                assert(Self::apply_model(s2, NFTA_SET_ELEM_LIST_ELEMENTS, payload) == Ok::<
                    SetElementListModel,
                    DecodeError,
                >(s3));
            }
            lemma_apply_step::<Self>(s2, s3, fields, 2);
        }
        let s4 = SetElementListModel { set_id: m.set_id, ..s3 };
        assert(apply_from::<Self>(s3, fields, 3) == apply_from::<Self>(
            s4,
            fields,
            4,
        )) by {
            if m.set_id is Some {
                let payload = be32(m.set_id.unwrap());
                lemma_decode_be32(m.set_id.unwrap());
                assert(Self::apply_model(s3, NFTA_SET_ELEM_LIST_SET_ID, payload) == Ok::<
                    SetElementListModel,
                    DecodeError,
                >(s4));
            }
            lemma_apply_step::<Self>(s3, s4, fields, 3);
        }
        assert(s4 == m);
    }
}

/// The elements of a list, first to last; none when the list has none yet.
pub open spec fn elements_of(m: SetElementListModel) -> Seq<SetElementModel> {
    match m.elements {
        None => Seq::empty(),
        Some(l) => l,
    }
}

/// The set that holds only what tells the sets of a table from all others:
/// the family and the table's name.
pub open spec fn set_filter(m: TableModel) -> NftSetModel {
    NftSetModel {
        family: m.family,
        table: m.name,
        ..<NftSet as NfNetlinkAttribute>::empty_model()
    }
}

/// The query that lists the sets of the given table: its request carries,
/// as a filter, a set that holds only the table's family and name.
///
/// Fails exactly when the table's name is too long to be encoded.
pub fn sets_query_for_table(table: &Table, seq: u32, portid: u32) -> (r: Result<
    QuerySession<NftSet>,
    Error,
>)
    ensures
        r is Ok <==> filter_fits::<NftSet>(Some(set_filter(table@))),
        r is Ok ==> r.unwrap()@ == (QueryModel {
            state: QueryState::Idle,
            seq,
            portid,
            request: dump_request::<NftSet>(NFT_MSG_GETSET, seq, Some(set_filter(table@))),
            objects: Seq::<NftSetModel>::empty(),
        }),
        r is Err ==> r == Err::<QuerySession<NftSet>, Error>(
            Error::InitError(filter_error::<NftSet>(Some(set_filter(table@)))),
        ),
{
    let filter = NftSet::new(table);
    QuerySession::list(Some(&filter), seq, portid)
}

} // verus!
