//! Tables.

use vstd::prelude::*;
use vstd::pervasive::unreached;
use crate::bytes::{be32, be64, decode_be32, decode_be64, read_be32, read_be64};
use crate::error::{BuilderError, DecodeError};
use crate::family::ProtocolFamily;
use crate::field::{
    be32_field, be64_field, bytes_field, c_string, decode_string, lemma_decode_be32,
    lemma_decode_be64, lemma_decode_string, opt_bytes_eq, opt_model, opt_string_eq, read_bytes,
    read_string, string_field, write_be32_field, write_be64_field, write_bytes_field,
    write_string_field,
};
use crate::nlmsg::NfNetlinkObject;
use crate::query::{QueryModel, QuerySession, QueryState, dump_request};
use crate::schema::{
    Fields, NfNetlinkAttribute, apply_from, fit_upto, lemma_apply_step, lemma_decode_fields,
    lemma_fit_upto, lemma_unfit_at, lemma_wire_split, wire_upto,
};
use crate::sys::{
    NFTA_TABLE_FLAGS, NFTA_TABLE_HANDLE, NFTA_TABLE_NAME, NFTA_TABLE_USERDATA, NFT_MSG_DELTABLE,
    NFT_MSG_GETTABLE, NFT_MSG_NEWTABLE, NLM_F_CREATE,
};

verus! {

/// A table: the container of chains and sets, in one address family.
#[derive(Clone, Debug, PartialEq, Eq, Hash)]
pub struct Table {
    /// The address family that the object belongs to.
    pub family: ProtocolFamily,
    /// Name of the table.
    pub name: Option<String>,
    /// Flags of the table.
    pub flags: Option<u32>,
    /// Handle that the kernel gave the table.
    pub handle: Option<u64>,
    /// Bytes that the kernel keeps with the table and does not read.
    pub userdata: Option<Vec<u8>>,
}

/// What a [`Table`] holds, as plain values.
pub struct TableModel {
    pub family: ProtocolFamily,
    pub name: Option<Seq<char>>,
    pub flags: Option<u32>,
    pub handle: Option<u64>,
    pub userdata: Option<Seq<u8>>,
}

impl View for Table {
    type V = TableModel;

    open spec fn view(&self) -> TableModel {
        TableModel {
            family: self.family,
            name: opt_model(self.name),
            flags: self.flags,
            handle: self.handle,
            userdata: opt_model(self.userdata),
        }
    }
}

impl Table {
    /// A table of the given family, without a name yet.
    pub fn new(family: ProtocolFamily) -> (r: Self)
        ensures
            r@ == (TableModel { family, ..<Table as NfNetlinkAttribute>::empty_model() }),
    {
        Table { family, name: None, flags: None, handle: None, userdata: None }
    }

    /// The same object with this field set: name of the table.
    pub fn with_name(self, v: String) -> (r: Self)
        ensures
            r@ == (TableModel { name: Some(v@), ..self@ }),
    {
        Table { name: Some(v), ..self }
    }

    /// Sets this field: name of the table.
    pub fn set_name(&mut self, v: String)
        ensures
            final(self)@ == (TableModel { name: Some(v@), ..old(self)@ }),
    {
        self.name = Some(v);
    }

    /// This field, if it is present: name of the table.
    pub fn get_name(&self) -> (r: Option<&String>)
        ensures
            r is Some <==> self.name is Some,
            r is Some ==> *r.unwrap() == self.name.unwrap(),
    {
        self.name.as_ref()
    }

    /// The same object with this field set: flags of the table.
    pub fn with_flags(self, v: u32) -> (r: Self)
        ensures
            r@ == (TableModel { flags: Some(v), ..self@ }),
    {
        Table { flags: Some(v), ..self }
    }

    /// Sets this field: flags of the table.
    pub fn set_flags(&mut self, v: u32)
        ensures
            final(self)@ == (TableModel { flags: Some(v), ..old(self)@ }),
    {
        self.flags = Some(v);
    }

    /// This field, if it is present: flags of the table.
    pub fn get_flags(&self) -> (r: Option<&u32>)
        ensures
            r is Some <==> self.flags is Some,
            r is Some ==> *r.unwrap() == self.flags.unwrap(),
    {
        self.flags.as_ref()
    }

    /// The same object with this field set: handle that the kernel gave the
    /// table.
    pub fn with_handle(self, v: u64) -> (r: Self)
        ensures
            r@ == (TableModel { handle: Some(v), ..self@ }),
    {
        Table { handle: Some(v), ..self }
    }

    /// Sets this field: handle that the kernel gave the table.
    pub fn set_handle(&mut self, v: u64)
        ensures
            final(self)@ == (TableModel { handle: Some(v), ..old(self)@ }),
    {
        self.handle = Some(v);
    }

    /// This field, if it is present: handle that the kernel gave the table.
    pub fn get_handle(&self) -> (r: Option<&u64>)
        ensures
            r is Some <==> self.handle is Some,
            r is Some ==> *r.unwrap() == self.handle.unwrap(),
    {
        self.handle.as_ref()
    }

    /// The same object with this field set: bytes that the kernel keeps with the
    /// table and does not read.
    pub fn with_userdata(self, v: Vec<u8>) -> (r: Self)
        ensures
            r@ == (TableModel { userdata: Some(v@), ..self@ }),
    {
        Table { userdata: Some(v), ..self }
    }

    /// Sets this field: bytes that the kernel keeps with the table and does not
    /// read.
    pub fn set_userdata(&mut self, v: Vec<u8>)
        ensures
            final(self)@ == (TableModel { userdata: Some(v@), ..old(self)@ }),
    {
        self.userdata = Some(v);
    }

    /// This field, if it is present: bytes that the kernel keeps with the table
    /// and does not read.
    pub fn get_userdata(&self) -> (r: Option<&Vec<u8>>)
        ensures
            r is Some <==> self.userdata is Some,
            r is Some ==> *r.unwrap() == self.userdata.unwrap(),
    {
        self.userdata.as_ref()
    }

    /// The same object in the given family.
    pub fn with_family(self, family: ProtocolFamily) -> (r: Self)
        ensures
            r@ == (TableModel { family, ..self@ }),
    {
        Table { family, ..self }
    }
}

impl Default for Table {
    fn default() -> (r: Self)
        ensures
            r@ == <Table as NfNetlinkAttribute>::empty_model(),
    {
        <Table as NfNetlinkAttribute>::empty()
    }
}

impl NfNetlinkAttribute for Table {
    open spec fn fields(m: TableModel) -> Fields {
        seq![
            string_field(NFTA_TABLE_NAME, m.name),
            be32_field(NFTA_TABLE_FLAGS, m.flags),
            be64_field(NFTA_TABLE_HANDLE, m.handle),
            bytes_field(NFTA_TABLE_USERDATA, m.userdata),
        ]
    }

    open spec fn empty_model() -> TableModel {
        TableModel {
            family: ProtocolFamily::Unspec,
            name: None,
            flags: None,
            handle: None,
            userdata: None,
        }
    }

    open spec fn apply_model(m: TableModel, code: u16, payload: Seq<u8>) -> Result<
        TableModel,
        DecodeError,
    > {
        if code == NFTA_TABLE_NAME {
            match decode_string(payload) {
                Err(e) => Err(e),
                Ok(v) => Ok(TableModel { name: Some(v), ..m }),
            }
        } else if code == NFTA_TABLE_FLAGS {
            match decode_be32(payload) {
                Err(e) => Err(e),
                Ok(v) => Ok(TableModel { flags: Some(v), ..m }),
            }
        } else if code == NFTA_TABLE_HANDLE {
            match decode_be64(payload) {
                Err(e) => Err(e),
                Ok(v) => Ok(TableModel { handle: Some(v), ..m }),
            }
        } else if code == NFTA_TABLE_USERDATA {
            Ok(TableModel { userdata: Some(payload), ..m })
        } else {
            Ok(m)
        }
    }

    fn empty() -> (r: Self) {
        Table {
            family: ProtocolFamily::Unspec,
            name: None,
            flags: None,
            handle: None,
            userdata: None,
        }
    }

    fn write_payload(&self, buf: &mut Vec<u8>) -> (r: Result<(), BuilderError>) {
        let ghost fields = Self::fields(self@);
        proof {
            lemma_wire_split(fields, 4);
            assert(buf@ + wire_upto(fields, 0) =~= buf@);
            assert(fit_upto(fields, 0));
        }
        match write_string_field(buf, NFTA_TABLE_NAME, &self.name) {
            Err(e) => {
                proof {
                    lemma_unfit_at(fields, 0, 0);
                }
                return Err(e);
            },
            Ok(()) => {},
        }
        assert(buf@ == old(buf)@ + wire_upto(fields, 1) && fit_upto(fields, 1));
        write_be32_field(buf, NFTA_TABLE_FLAGS, self.flags);
        assert(buf@ == old(buf)@ + wire_upto(fields, 2) && fit_upto(fields, 2));
        write_be64_field(buf, NFTA_TABLE_HANDLE, self.handle);
        assert(buf@ == old(buf)@ + wire_upto(fields, 3) && fit_upto(fields, 3));
        match write_bytes_field(buf, NFTA_TABLE_USERDATA, &self.userdata) {
            Err(e) => {
                proof {
                    lemma_unfit_at(fields, 0, 3);
                }
                return Err(e);
            },
            Ok(()) => {},
        }
        assert(buf@ == old(buf)@ + wire_upto(fields, 4) && fit_upto(fields, 4));
        proof {
            lemma_fit_upto(fields, 4);
        }
        Ok(())
    }

    fn equals(&self, other: &Self) -> (b: bool) {
        let same_flags = match (self.flags, other.flags) {
            (None, None) => true,
            (Some(x), Some(y)) => x == y,
            _ => false,
        };
        let same_handle = match (self.handle, other.handle) {
            (None, None) => true,
            (Some(x), Some(y)) => x == y,
            _ => false,
        };
        self.family == other.family
            && opt_string_eq(&self.name, &other.name)
            && same_flags
            && same_handle
            && opt_bytes_eq(&self.userdata, &other.userdata)
    }

    fn decode_attribute(self, code: u16, payload: &[u8]) -> (r: Result<Self, DecodeError>) {
        if code == NFTA_TABLE_NAME {
            let v = read_string(payload)?;
            Ok(Table { name: Some(v), ..self })
        } else if code == NFTA_TABLE_FLAGS {
            let v = read_be32(payload)?;
            Ok(Table { flags: Some(v), ..self })
        } else if code == NFTA_TABLE_HANDLE {
            let v = read_be64(payload)?;
            Ok(Table { handle: Some(v), ..self })
        } else if code == NFTA_TABLE_USERDATA {
            let v = read_bytes(payload);
            Ok(Table { userdata: Some(v), ..self })
        } else {
            Ok(self)
        }
    }
}

impl NfNetlinkObject for Table {
    open spec fn family_of(m: TableModel) -> ProtocolFamily {
        m.family
    }

    open spec fn with_family_model(m: TableModel, family: ProtocolFamily) -> TableModel {
        TableModel { family, ..m }
    }

    open spec fn msg_type_add() -> u8 {
        NFT_MSG_NEWTABLE
    }

    open spec fn msg_type_del() -> u8 {
        NFT_MSG_DELTABLE
    }

    open spec fn msg_type_get() -> u8 {
        NFT_MSG_GETTABLE
    }

    /// The object is created if it does not exist yet.
    open spec fn add_flags() -> u16 {
        NLM_F_CREATE
    }

    open spec fn valid(m: TableModel) -> bool {
        true
    }

    fn get_family(&self) -> (f: ProtocolFamily) {
        self.family
    }

    fn set_family(&mut self, family: ProtocolFamily) {
        self.family = family;
    }

    fn get_msg_type_add() -> (t: u8) {
        NFT_MSG_NEWTABLE
    }

    fn get_msg_type_del() -> (t: u8) {
        NFT_MSG_DELTABLE
    }

    fn get_msg_type_get() -> (t: u8) {
        NFT_MSG_GETTABLE
    }

    fn get_add_flags(&self) -> (f: u16) {
        NLM_F_CREATE
    }

    proof fn lemma_family(m: TableModel, family: ProtocolFamily) {
    }

    proof fn lemma_object_roundtrip(m: TableModel) {
        let fields = Self::fields(m);
        let s0 = Self::with_family_model(Self::empty_model(), m.family);
        lemma_decode_fields::<Self>(s0, fields, 0);
        let s1 = TableModel { name: m.name, ..s0 };
        assert(apply_from::<Self>(s0, fields, 0) == apply_from::<Self>(
            s1,
            fields,
            1,
        )) by {
            if m.name is Some {
                let payload = c_string(m.name.unwrap());
                lemma_decode_string(m.name.unwrap());
                assert(Self::apply_model(s0, NFTA_TABLE_NAME, payload) == Ok::<
                    TableModel,
                    DecodeError,
                >(s1));
            }
            lemma_apply_step::<Self>(s0, s1, fields, 0);
        }
        let s2 = TableModel { flags: m.flags, ..s1 };
        assert(apply_from::<Self>(s1, fields, 1) == apply_from::<Self>(
            s2,
            fields,
            2,
        )) by {
            if m.flags is Some {
                let payload = be32(m.flags.unwrap());
                lemma_decode_be32(m.flags.unwrap());
                assert(Self::apply_model(s1, NFTA_TABLE_FLAGS, payload) == Ok::<
                    TableModel,
                    DecodeError,
                >(s2));
            }
            lemma_apply_step::<Self>(s1, s2, fields, 1);
        }
        let s3 = TableModel { handle: m.handle, ..s2 };
        assert(apply_from::<Self>(s2, fields, 2) == apply_from::<Self>(
            s3,
            fields,
            3,
        )) by {
            if m.handle is Some {
                let payload = be64(m.handle.unwrap());
                lemma_decode_be64(m.handle.unwrap());
                assert(Self::apply_model(s2, NFTA_TABLE_HANDLE, payload) == Ok::<
                    TableModel,
                    DecodeError,
                >(s3));
            }
            lemma_apply_step::<Self>(s2, s3, fields, 2);
        }
        let s4 = TableModel { userdata: m.userdata, ..s3 };
        assert(apply_from::<Self>(s3, fields, 3) == apply_from::<Self>(
            s4,
            fields,
            4,
        )) by {
            if m.userdata is Some {
                let payload = m.userdata.unwrap();
                assert(Self::apply_model(s3, NFTA_TABLE_USERDATA, payload) == Ok::<
                    TableModel,
                    DecodeError,
                >(s4));
            }
            lemma_apply_step::<Self>(s3, s4, fields, 3);
        }
        assert(s4 == m);
    }
}

/// The query that lists all tables, of every family.
pub fn tables_query(seq: u32, portid: u32) -> (r: QuerySession<Table>)
    ensures
        r@ == (QueryModel {
            state: QueryState::Idle,
            seq,
            portid,
            request: dump_request::<Table>(NFT_MSG_GETTABLE, seq, None),
            objects: Seq::<TableModel>::empty(),
        }),
{
    match QuerySession::list(None, seq, portid) {
        Ok(q) => q,
        Err(_) => unreached(),
    }
}

} // verus!
