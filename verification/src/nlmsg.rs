//! The message envelope: a netlink header, the netfilter family header, and
//! the attributes of one object.
//!
//! The integers of the netlink header are in host order, which is
//! little-endian on the machines this library is written for; the resource id
//! of the family header is in network order.

use vstd::prelude::*;
use vstd::slice::slice_subrange;
use crate::bytes::{
    be16, from_be16, from_le16, from_le32, get_le16, get_le32, le16, le32, lemma_be16_roundtrip,
    lemma_le16_roundtrip, lemma_le32_roundtrip, push_be16, push_le16, push_le32,
};
use crate::error::{BuilderError, DecodeError};
use crate::family::{MsgType, ProtocolFamily};
use crate::field::WireEnum;
use crate::schema::{decode_from, deserialize_from, fields_fit, fields_wire, NfNetlinkAttribute};
use crate::sys::{
    NFNETLINK_V0, NFNL_MSG_BATCH_BEGIN, NFNL_MSG_BATCH_END, NFNL_SUBSYS_NFTABLES, NLMSG_DONE,
    NLMSG_ERROR, NLMSG_HDRLEN, NLMSG_MIN_TYPE, NLMSG_NOOP, NLM_F_ACK, NLM_F_DUMP_INTR,
    NLM_F_REQUEST,
};

verus! {

/// The header of a netlink message.
#[derive(Clone, Copy, Debug, PartialEq, Eq, Hash, Structural)]
pub struct NlMsgHeader {
    /// Length of the message, this header included.
    pub len: u32,
    /// What the message is: a control message, or an operation on an object.
    pub msg_type: u16,
    /// Flags of the request or of the answer.
    pub flags: u16,
    /// Sequence number, which ties an answer to its request.
    pub seq: u32,
    /// Port id of the socket that the message is for, or comes from.
    pub pid: u32,
}

impl NlMsgHeader {
    /// Whether the kernel says that the dump this message belongs to was
    /// interrupted: its objects may then be incomplete, and the dump is to be
    /// asked for again. The library reads such a message like any other.
    pub fn dump_interrupted(&self) -> (b: bool)
        ensures
            b == (self.flags & NLM_F_DUMP_INTR != 0),
    {
        self.flags & NLM_F_DUMP_INTR != 0
    }
}

/// The netfilter header that follows the netlink header of a data message.
#[derive(Clone, Copy, Debug, PartialEq, Eq, Hash, Structural)]
pub struct NfGenMsg {
    /// Address family of the object.
    pub family: u8,
    /// Version of the netfilter netlink protocol.
    pub version: u8,
    /// Resource id; names the subsystem in the two messages that frame a batch.
    pub res_id: u16,
}

/// The record of an error message, as the kernel wrote it: the error, and
/// the header of the request that the kernel could not serve.
#[derive(Clone, Copy, Debug, PartialEq, Eq, Hash, Structural)]
pub struct NlMsgErr {
    /// The error as the kernel wrote it: zero acknowledges the request, and
    /// a failure is the error number with a minus sign.
    pub error: i32,
    /// Header of the request.
    pub msg: NlMsgHeader,
}

/// The error number of a record: the error without its sign.
pub open spec fn errno_of_error(error: i32) -> u32 {
    if error >= 0 {
        error as u32
    } else {
        (-error) as u32
    }
}

impl NlMsgErr {
    /// The error number: the error without its sign. Zero acknowledges the
    /// request.
    pub fn errno(&self) -> (n: u32)
        ensures
            n == errno_of_error(self.error),
    {
        if self.error >= 0 {
            self.error as u32
        } else {
            (-(self.error as i64)) as u32
        }
    }
}

/// What a message is, after its header.
#[derive(Clone, Copy, Debug, PartialEq, Eq)]
pub enum NlMsg<'a> {
    /// The end of a dump.
    Done,
    /// Nothing: to be passed over.
    Noop,
    /// An error, or with error number zero an acknowledgement.
    Error(NlMsgErr),
    /// An object: its family header and its attribute stream.
    NfGenMsg(NfGenMsg, &'a [u8]),
}

/// What an [`NlMsg`] holds, as plain values.
pub enum NlMsgModel {
    Done,
    Noop,
    Error(NlMsgErr),
    NfGenMsg(NfGenMsg, Seq<u8>),
}

impl<'a> View for NlMsg<'a> {
    type V = NlMsgModel;

    open spec fn view(&self) -> NlMsgModel {
        match self {
            NlMsg::Done => NlMsgModel::Done,
            NlMsg::Noop => NlMsgModel::Noop,
            NlMsg::Error(e) => NlMsgModel::Error(*e),
            NlMsg::NfGenMsg(g, data) => NlMsgModel::NfGenMsg(*g, data@),
        }
    }
}

/// The sixteen bytes of a netlink header.
pub open spec fn header_bytes(h: NlMsgHeader) -> Seq<u8> {
    le32(h.len) + le16(h.msg_type) + le16(h.flags) + le32(h.seq) + le32(h.pid)
}

/// The four bytes of a family header.
pub open spec fn genmsg_bytes(g: NfGenMsg) -> Seq<u8> {
    seq![g.family, g.version] + be16(g.res_id)
}

/// The header that the first sixteen bytes of `b` hold.
pub open spec fn header_of(b: Seq<u8>) -> NlMsgHeader
    recommends
        b.len() >= 16,
{
    NlMsgHeader {
        len: from_le32(b.subrange(0, 4)),
        msg_type: from_le16(b.subrange(4, 6)),
        flags: from_le16(b.subrange(6, 8)),
        seq: from_le32(b.subrange(8, 12)),
        pid: from_le32(b.subrange(12, 16)),
    }
}

/// The family header that the first four bytes of `b` hold.
pub open spec fn genmsg_of(b: Seq<u8>) -> NfGenMsg
    recommends
        b.len() >= 4,
{
    NfGenMsg { family: b[0], version: b[1], res_id: from_be16(b.subrange(2, 4)) }
}

/// The type field of a message of the packet-filter subsystem.
pub open spec fn nft_msg_type(op: u8) -> u16 {
    (NFNL_SUBSYS_NFTABLES as u16 * 0x100 + op as u16) as u16
}

/// The subsystem in a type field.
pub open spec fn subsystem_of(msg_type: u16) -> u8 {
    (msg_type / 0x100) as u8
}

/// The operation in a type field.
pub open spec fn operation_of(msg_type: u16) -> u8 {
    (msg_type % 0x100) as u8
}

/// A whole data message: its header with the computed length, the family
/// header, and the attribute stream.
pub open spec fn message_bytes(
    msg_type: u16,
    flags: u16,
    seq: u32,
    g: NfGenMsg,
    attrs: Seq<u8>,
) -> Seq<u8> {
    header_bytes(
        NlMsgHeader { len: (20 + attrs.len()) as u32, msg_type, flags, seq, pid: 0 },
    ) + genmsg_bytes(g) + attrs
}

/// Whether a message with this attribute stream has a length that its
/// header can say.
pub open spec fn message_fits(attrs: Seq<u8>) -> bool {
    20 + attrs.len() <= u32::MAX
}

/// The error in the four bytes that hold it as a signed number in host
/// order.
pub open spec fn error_of(b: Seq<u8>) -> i32
    recommends
        b.len() >= 4,
{
    error_signed(from_le32(b))
}

/// What the first message of `b` is, for a session with the given sequence
/// number and port id.
///
/// A session accepts only the messages that carry its own sequence number
/// and its own port id; zero is a number like any other. Control messages
/// are told by their type; any other message must belong to the
/// packet-filter subsystem, or frame a batch, and carry a family header of
/// the known version.
#[verifier::opaque]
pub open spec fn parse_msg(b: Seq<u8>, seq: u32, portid: u32) -> Result<
    (NlMsgHeader, NlMsgModel),
    DecodeError,
> {
    if b.len() < 16 {
        Err(DecodeError::NlMsgTooSmall)
    } else {
        let h = header_of(b);
        if h.len < 16 || h.len > b.len() {
            Err(DecodeError::NlMsgTooSmall)
        } else if h.seq != seq {
            Err(DecodeError::BadSequenceNumber(h.seq))
        } else if h.pid != portid {
            Err(DecodeError::BadPortId(h.pid))
        } else if h.msg_type < NLMSG_MIN_TYPE {
            if h.msg_type == NLMSG_NOOP {
                Ok((h, NlMsgModel::Noop))
            } else if h.msg_type == NLMSG_ERROR {
                if h.len < 36 {
                    Err(DecodeError::NlMsgTooSmall)
                } else {
                    Ok(
                        (
                            h,
                            NlMsgModel::Error(
                                NlMsgErr {
                                    error: error_of(b.subrange(16, 20)),
                                    msg: header_of(b.subrange(20, 36)),
                                },
                            ),
                        ),
                    )
                }
            } else if h.msg_type == NLMSG_DONE {
                Ok((h, NlMsgModel::Done))
            } else {
                Err(DecodeError::UnsupportedType(h.msg_type))
            }
        } else if h.msg_type != NFNL_MSG_BATCH_BEGIN && h.msg_type != NFNL_MSG_BATCH_END
            && subsystem_of(h.msg_type) != NFNL_SUBSYS_NFTABLES {
            Err(DecodeError::InvalidSubsystem(subsystem_of(h.msg_type)))
        } else if h.len < 20 {
            Err(DecodeError::NlMsgTooSmall)
        } else if genmsg_of(b.subrange(16, 20)).version != NFNETLINK_V0 {
            Err(DecodeError::InvalidVersion(genmsg_of(b.subrange(16, 20)).version))
        } else {
            Ok(
                (
                    h,
                    NlMsgModel::NfGenMsg(
                        genmsg_of(b.subrange(16, 20)),
                        b.subrange(20, h.len as int),
                    ),
                ),
            )
        }
    }
}

/// Reads the netlink header at `pos`.
fn read_header(b: &[u8], pos: usize) -> (h: NlMsgHeader)
    requires
        pos + 16 <= b.len(),
    ensures
        h == header_of(b@.subrange(pos as int, pos + 16)),
{
    let ghost s = b@.subrange(pos as int, pos + 16);
    proof {
        assert(s.subrange(0, 4) =~= b@.subrange(pos as int, pos + 4));
        assert(s.subrange(4, 6) =~= b@.subrange(pos + 4, pos + 6));
        assert(s.subrange(6, 8) =~= b@.subrange(pos + 6, pos + 8));
        assert(s.subrange(8, 12) =~= b@.subrange(pos + 8, pos + 12));
        assert(s.subrange(12, 16) =~= b@.subrange(pos + 12, pos + 16));
    }
    NlMsgHeader {
        len: get_le32(b, pos),
        msg_type: get_le16(b, pos + 4),
        flags: get_le16(b, pos + 6),
        seq: get_le32(b, pos + 8),
        pid: get_le32(b, pos + 12),
    }
}

/// Tells what the first message of `buf` is, as [`parse_msg`] says: the
/// message's header and, for an object, its family header and attribute
/// stream; for an error, its record.
pub fn parse_nlmsg<'a>(buf: &'a [u8], seq: u32, portid: u32) -> (r: Result<
    (NlMsgHeader, NlMsg<'a>),
    DecodeError,
>)
    ensures
        match r {
            Ok((h, msg)) => parse_msg(buf@, seq, portid) == Ok::<
                (NlMsgHeader, NlMsgModel),
                DecodeError,
            >((h, msg@)),
            Err(e) => parse_msg(buf@, seq, portid) == Err::<
                (NlMsgHeader, NlMsgModel),
                DecodeError,
            >(e),
        },
{
    proof {
        reveal(parse_msg);
    }
    if buf.len() < NLMSG_HDRLEN {
        return Err(DecodeError::NlMsgTooSmall);
    }
    let h = read_header(buf, 0);
    proof {
        let s = buf@.subrange(0, 16);
        assert(s.subrange(0, 4) =~= buf@.subrange(0, 4));
        assert(s.subrange(4, 6) =~= buf@.subrange(4, 6));
        assert(s.subrange(6, 8) =~= buf@.subrange(6, 8));
        assert(s.subrange(8, 12) =~= buf@.subrange(8, 12));
        assert(s.subrange(12, 16) =~= buf@.subrange(12, 16));
    }
    if h.len < 16 || h.len as usize > buf.len() {
        return Err(DecodeError::NlMsgTooSmall);
    }
    if h.seq != seq {
        return Err(DecodeError::BadSequenceNumber(h.seq));
    }
    if h.pid != portid {
        return Err(DecodeError::BadPortId(h.pid));
    }
    if h.msg_type < NLMSG_MIN_TYPE {
        if h.msg_type == NLMSG_NOOP {
            return Ok((h, NlMsg::Noop));
        } else if h.msg_type == NLMSG_ERROR {
            if h.len < 36 {
                return Err(DecodeError::NlMsgTooSmall);
            }
            let raw = get_le32(buf, 16);
            let error: i32 = if raw < 0x8000_0000 {
                raw as i32
            } else {
                (raw as i64 - 0x1_0000_0000) as i32
            };
            let msg = read_header(buf, 20);
            proof {
                assert(buf@.subrange(16, 20).subrange(0, 4) =~= buf@.subrange(16, 20));
                assert(from_le32(buf@.subrange(16, 20)) == raw);
            }
            return Ok((h, NlMsg::Error(NlMsgErr { error, msg })));
        } else if h.msg_type == NLMSG_DONE {
            return Ok((h, NlMsg::Done));
        } else {
            return Err(DecodeError::UnsupportedType(h.msg_type));
        }
    }
    if h.msg_type != NFNL_MSG_BATCH_BEGIN && h.msg_type != NFNL_MSG_BATCH_END {
        let subsys = (h.msg_type / 0x100) as u8;
        if subsys != NFNL_SUBSYS_NFTABLES {
            return Err(DecodeError::InvalidSubsystem(subsys));
        }
    }
    if h.len < 20 {
        return Err(DecodeError::NlMsgTooSmall);
    }
    let ghost gb = buf@.subrange(16, 20);
    let res_id = (buf[18] as u16) * 0x100 + (buf[19] as u16);
    let g = NfGenMsg { family: buf[16], version: buf[17], res_id };
    if g.version != NFNETLINK_V0 {
        return Err(DecodeError::InvalidVersion(g.version));
    }
    let data = slice_subrange(buf, 20, h.len as usize);
    Ok((h, NlMsg::NfGenMsg(g, data)))
}

/// The operation in a type field: what is asked of the kernel, without the
/// subsystem.
pub fn get_operation_from_nlmsghdr_type(x: u16) -> (op: u8)
    ensures
        op == operation_of(x),
{
    (x % 0x100) as u8
}

/// The subsystem in a type field.
pub fn get_subsystem_from_nlmsghdr_type(x: u16) -> (s: u8)
    ensures
        s == subsystem_of(x),
{
    (x / 0x100) as u8
}

/// Starts a message: appends the netlink header and the family header. The
/// length in the header is that of the two headers; [`finalize_message`]
/// sets it once the attributes are written. Returns where the message
/// starts.
pub fn write_header(
    buf: &mut Vec<u8>,
    msg_type: u16,
    flags: u16,
    seq: u32,
    g: NfGenMsg,
) -> (start: usize)
    ensures
        start == old(buf)@.len(),
        final(buf)@ == old(buf)@ + message_bytes(msg_type, flags, seq, g, Seq::empty()),
{
    let start = buf.len();
    push_le32(buf, 20);
    push_le16(buf, msg_type);
    push_le16(buf, flags);
    push_le32(buf, seq);
    push_le32(buf, 0);
    buf.push(g.family);
    buf.push(g.version);
    push_be16(buf, g.res_id);
    proof {
        assert(buf@ =~= old(buf)@ + message_bytes(msg_type, flags, seq, g, Seq::empty()));
    }
    start
}

/// Ends the message that starts at `start`: everything after its two headers
/// is its attribute stream, and the length of it all is patched into the
/// header.
///
/// Fails exactly when that length does not fit the header's 32 bits.
pub fn finalize_message(buf: &mut Vec<u8>, start: usize) -> (r: Result<(), BuilderError>)
    requires
        start + 20 <= old(buf)@.len(),
    ensures
        r is Ok <==> old(buf)@.len() - start <= u32::MAX,
        r is Ok ==> final(buf)@ == old(buf)@.subrange(0, start as int) + le32(
            (old(buf)@.len() - start) as u32,
        ) + old(buf)@.subrange(start + 4, old(buf)@.len() as int),
        r is Err ==> r == Err::<(), BuilderError>(BuilderError::MessageTooLarge) && final(buf)@
            == old(buf)@,
{
    let n = buf.len() - start;
    if n > u32::MAX as usize {
        return Err(BuilderError::MessageTooLarge);
    }
    let len: u32 = n as u32;
    buf[start] = (len % 0x100) as u8;
    buf[start + 1] = (len / 0x100 % 0x100) as u8;
    buf[start + 2] = (len / 0x1_0000 % 0x100) as u8;
    buf[start + 3] = (len / 0x100_0000) as u8;
    proof {
        assert(buf@ =~= old(buf)@.subrange(0, start as int) + le32(len) + old(buf)@.subrange(
            start + 4,
            old(buf)@.len() as int,
        ));
    }
    Ok(())
}

/// Appends a whole message that carries the attributes of `obj`. Fails, and
/// leaves the buffer as it was, when an attribute of the object is too long
/// or the message is.
pub fn write_message<T: NfNetlinkAttribute>(
    buf: &mut Vec<u8>,
    msg_type: u16,
    flags: u16,
    seq: u32,
    g: NfGenMsg,
    obj: &T,
) -> (r: Result<(), BuilderError>)
    ensures
        r is Ok <==> fields_fit(T::fields(obj@)) && message_fits(fields_wire(T::fields(obj@))),
        r is Ok ==> final(buf)@ == old(buf)@ + message_bytes(
            msg_type,
            flags,
            seq,
            g,
            fields_wire(T::fields(obj@)),
        ),
        r is Err ==> final(buf)@ == old(buf)@,
        !fields_fit(T::fields(obj@)) ==> r == Err::<(), BuilderError>(
            BuilderError::AttributeTooLarge,
        ),
        fields_fit(T::fields(obj@)) && !message_fits(fields_wire(T::fields(obj@))) ==> r == Err::<
            (),
            BuilderError,
        >(BuilderError::MessageTooLarge),
{
    let ghost wire = fields_wire(T::fields(obj@));
    let mut msg: Vec<u8> = Vec::new();
    let start = write_header(&mut msg, msg_type, flags, seq, g);
    obj.write_payload(&mut msg)?;
    let ghost mid = msg@;
    finalize_message(&mut msg, start)?;
    proof {
        assert(mid.len() == 20 + wire.len());
        assert(msg@ =~= message_bytes(msg_type, flags, seq, g, wire));
    }
    buf.extend_from_slice(msg.as_slice());
    Ok(())
}

/// A wire object that the kernel keeps: it has an address family, a message
/// type for creating it and one for deleting it, and flags that go with its
/// creation.
pub trait NfNetlinkObject: NfNetlinkAttribute {
    /// The family of an object.
    spec fn family_of(m: Self::V) -> ProtocolFamily;

    /// The same object in another family.
    spec fn with_family_model(m: Self::V, family: ProtocolFamily) -> Self::V;

    /// The operation that creates or updates an object of this kind.
    spec fn msg_type_add() -> u8;

    /// The operation that deletes an object of this kind.
    spec fn msg_type_del() -> u8;

    /// The operation that lists the objects of this kind.
    spec fn msg_type_get() -> u8;

    /// The flags that go with the creation of an object of this kind.
    spec fn add_flags() -> u16;

    /// What a model must satisfy for decoding to undo encoding.
    spec fn valid(m: Self::V) -> bool;

    /// The family of this object.
    fn get_family(&self) -> (f: ProtocolFamily)
        ensures
            f == Self::family_of(self@),
    ;

    /// Moves this object to another family. Its fields stay as they are.
    fn set_family(&mut self, family: ProtocolFamily)
        ensures
            final(self)@ == Self::with_family_model(old(self)@, family),
    ;

    /// The operation that creates or updates an object of this kind.
    fn get_msg_type_add() -> (t: u8)
        ensures
            t == Self::msg_type_add(),
    ;

    /// The operation that deletes an object of this kind.
    fn get_msg_type_del() -> (t: u8)
        ensures
            t == Self::msg_type_del(),
    ;

    /// The operation that lists the objects of this kind.
    fn get_msg_type_get() -> (t: u8)
        ensures
            t == Self::msg_type_get(),
    ;

    /// The flags that go with the creation of this object.
    fn get_add_flags(&self) -> (f: u16)
        ensures
            f == Self::add_flags(),
    ;

    /// The family of an object is the one it was given, and an object without
    /// fields in a family is found again by taking the family out.
    proof fn lemma_family(m: Self::V, family: ProtocolFamily)
        ensures
            Self::family_of(Self::with_family_model(m, family)) == family,
            Self::with_family_model(m, Self::family_of(m)) == m,
    ;

    /// Decoding the attributes of an object, starting from the object without
    /// fields in the same family, gives back the object.
    proof fn lemma_object_roundtrip(m: Self::V)
        requires
            Self::valid(m),
            fields_fit(Self::fields(m)),
        ensures
            decode_from::<Self>(
                Self::with_family_model(Self::empty_model(), Self::family_of(m)),
                fields_wire(Self::fields(m)),
            ) == Ok::<Self::V, DecodeError>(m),
    ;
}

/// The operation that a message of the given type asks for.
pub open spec fn object_operation<T: NfNetlinkObject>(op: MsgType) -> u8 {
    match op {
        MsgType::Add => T::msg_type_add(),
        MsgType::Del => T::msg_type_del(),
    }
}

/// The flags of a message that asks for the given operation: a request to be
/// acknowledged, with the creation flags of the object when it is to be
/// created.
pub open spec fn object_flags<T: NfNetlinkObject>(op: MsgType) -> u16 {
    match op {
        MsgType::Add => NLM_F_REQUEST | NLM_F_ACK | T::add_flags(),
        MsgType::Del => NLM_F_REQUEST | NLM_F_ACK,
    }
}

/// The family header of a message about an object of the given family.
pub open spec fn object_genmsg(family: ProtocolFamily) -> NfGenMsg {
    NfGenMsg { family: family.code() as u8, version: NFNETLINK_V0, res_id: 0 }
}

/// The message that asks the kernel to create or delete an object.
pub open spec fn object_message<T: NfNetlinkObject>(m: T::V, op: MsgType, seq: u32) -> Seq<u8> {
    message_bytes(
        nft_msg_type(object_operation::<T>(op)),
        object_flags::<T>(op),
        seq,
        object_genmsg(T::family_of(m)),
        fields_wire(T::fields(m)),
    )
}

/// Appends the message that asks the kernel to create or delete `obj`.
/// Fails, and leaves the buffer as it was, when an attribute of the object is
/// too long or the message is.
pub fn add_or_remove<T: NfNetlinkObject>(
    obj: &T,
    buf: &mut Vec<u8>,
    msg_type: MsgType,
    seq: u32,
) -> (r: Result<(), BuilderError>)
    ensures
        r is Ok <==> fields_fit(T::fields(obj@)) && message_fits(fields_wire(T::fields(obj@))),
        r is Ok ==> final(buf)@ == old(buf)@ + object_message::<T>(obj@, msg_type, seq),
        r is Err ==> final(buf)@ == old(buf)@,
        !fields_fit(T::fields(obj@)) ==> r == Err::<(), BuilderError>(
            BuilderError::AttributeTooLarge,
        ),
        fields_fit(T::fields(obj@)) && !message_fits(fields_wire(T::fields(obj@))) ==> r == Err::<
            (),
            BuilderError,
        >(BuilderError::MessageTooLarge),
{
    let (op, flags) = match msg_type {
        MsgType::Add => (T::get_msg_type_add(), NLM_F_REQUEST | NLM_F_ACK | obj.get_add_flags()),
        MsgType::Del => (T::get_msg_type_del(), NLM_F_REQUEST | NLM_F_ACK),
    };
    let raw_type: u16 = NFNL_SUBSYS_NFTABLES as u16 * 0x100 + op as u16;
    let g = NfGenMsg { family: obj.get_family().to_u8(), version: NFNETLINK_V0, res_id: 0 };
    write_message(buf, raw_type, flags, seq, g, obj)
}

/// The family that a family header names, if it names one.
pub open spec fn family_of_genmsg(g: NfGenMsg) -> Option<ProtocolFamily> {
    ProtocolFamily::of_code(g.family as u32)
}

/// The object that a data message decodes to: the object without fields in
/// the family of the family header, after it has taken in the attributes.
pub open spec fn decode_object_model<T: NfNetlinkObject>(g: NfGenMsg, data: Seq<u8>) -> Result<
    T::V,
    DecodeError,
> {
    match family_of_genmsg(g) {
        None => Err(DecodeError::UnknownDiscriminant(g.family as u32)),
        Some(family) => decode_from::<T>(T::with_family_model(T::empty_model(), family), data),
    }
}

/// Decodes the object that a data message carries.
pub fn decode_object<T: NfNetlinkObject>(g: &NfGenMsg, data: &[u8]) -> (r: Result<T, DecodeError>)
    ensures
        match r {
            Ok(o) => decode_object_model::<T>(*g, data@) == Ok::<T::V, DecodeError>(o@),
            Err(e) => decode_object_model::<T>(*g, data@) == Err::<T::V, DecodeError>(e),
        },
{
    match ProtocolFamily::from_code(g.family as u32) {
        None => Err(DecodeError::UnknownDiscriminant(g.family as u32)),
        Some(family) => {
            let mut obj = T::empty();
            obj.set_family(family);
            deserialize_from(obj, data)
        },
    }
}

/// A message that carries an object is told apart as a data message, with
/// the family header and the attribute stream that were written, and the
/// object that it decodes to is the object that was encoded.
pub proof fn lemma_message_roundtrip<T: NfNetlinkObject>(m: T::V, op: MsgType, seq: u32)
    requires
        T::valid(m),
        fields_fit(T::fields(m)),
        message_fits(fields_wire(T::fields(m))),
    ensures
        parse_msg(object_message::<T>(m, op, seq), seq, 0) == Ok::<
            (NlMsgHeader, NlMsgModel),
            DecodeError,
        >(
            (
                NlMsgHeader {
                    len: (20 + fields_wire(T::fields(m)).len()) as u32,
                    msg_type: nft_msg_type(object_operation::<T>(op)),
                    flags: object_flags::<T>(op),
                    seq,
                    pid: 0,
                },
                NlMsgModel::NfGenMsg(
                    object_genmsg(T::family_of(m)),
                    fields_wire(T::fields(m)),
                ),
            ),
        ),
        decode_object_model::<T>(object_genmsg(T::family_of(m)), fields_wire(T::fields(m)))
            == Ok::<T::V, DecodeError>(m),
{
    let wire = fields_wire(T::fields(m));
    let g = object_genmsg(T::family_of(m));
    let h = NlMsgHeader {
        len: (20 + wire.len()) as u32,
        msg_type: nft_msg_type(object_operation::<T>(op)),
        flags: object_flags::<T>(op),
        seq,
        pid: 0,
    };
    lemma_parse_message(h, g, wire, Seq::empty(), seq, 0);
    assert(header_bytes(h) + genmsg_bytes(g) + wire + Seq::<u8>::empty() =~= object_message::<T>(
        m,
        op,
        seq,
    ));
    lemma_decode_object::<T>(m);
}

/// The family header and the attribute stream of an object decode to the
/// object.
pub proof fn lemma_decode_object<T: NfNetlinkObject>(m: T::V)
    requires
        T::valid(m),
        fields_fit(T::fields(m)),
    ensures
        decode_object_model::<T>(object_genmsg(T::family_of(m)), fields_wire(T::fields(m)))
            == Ok::<T::V, DecodeError>(m),
{
    let family = T::family_of(m);
    family.lemma_code();
    assert(family.code() < 0x100);
    assert(family_of_genmsg(object_genmsg(family)) == Some(family));
    T::lemma_object_roundtrip(m);
}

/// A message that is told apart lies within the buffer, and is at least as
/// long as its header.
pub proof fn lemma_parse_len(b: Seq<u8>, seq: u32, portid: u32)
    ensures
        parse_msg(b, seq, portid) matches Ok((h, msg)) ==> 16 <= h.len <= b.len() && h
            == header_of(b),
{
    reveal(parse_msg);
}

/// The bytes of an error message: its header, the error number as the
/// kernel writes it (a signed number in host order, here as the unsigned
/// number with the same bytes), and the header of the request.
pub open spec fn error_bytes(h: NlMsgHeader, raw: u32, request: NlMsgHeader) -> Seq<u8> {
    header_bytes(h) + le32(raw) + header_bytes(request)
}

/// The signed number that has the same four bytes as `raw`.
pub open spec fn error_signed(raw: u32) -> i32 {
    if raw < 0x8000_0000 {
        raw as i32
    } else {
        (raw - 0x1_0000_0000) as i32
    }
}

/// An error message is told apart as an error, with the error as the
/// kernel wrote it and the header of the request, whatever stands after the
/// message.
pub proof fn lemma_parse_error(
    h: NlMsgHeader,
    raw: u32,
    request: NlMsgHeader,
    tail: Seq<u8>,
    seq: u32,
    portid: u32,
)
    requires
        h.msg_type == NLMSG_ERROR,
        h.len == 36,
        h.seq == seq,
        h.pid == portid,
    ensures
        parse_msg(error_bytes(h, raw, request) + tail, seq, portid) == Ok::<
            (NlMsgHeader, NlMsgModel),
            DecodeError,
        >((h, NlMsgModel::Error(NlMsgErr { error: error_signed(raw), msg: request }))),
{
    reveal(parse_msg);
    let b = error_bytes(h, raw, request) + tail;
    assert(b =~= header_bytes(h) + (le32(raw) + header_bytes(request) + tail));
    lemma_header_of(h, le32(raw) + header_bytes(request) + tail);
    lemma_header_of(request, tail);
    lemma_le32_roundtrip(raw);
    assert(b.subrange(16, 20) =~= le32(raw));
    assert(b.subrange(20, 36) =~= (header_bytes(request) + tail).subrange(0, 16));
    let r = header_bytes(request) + tail;
    assert(r.subrange(0, 16).subrange(0, 4) =~= r.subrange(0, 4));
    assert(r.subrange(0, 16).subrange(4, 6) =~= r.subrange(4, 6));
    assert(r.subrange(0, 16).subrange(6, 8) =~= r.subrange(6, 8));
    assert(r.subrange(0, 16).subrange(8, 12) =~= r.subrange(8, 12));
    assert(r.subrange(0, 16).subrange(12, 16) =~= r.subrange(12, 16));
}

/// A done message is told apart as done, whatever stands after its header.
pub proof fn lemma_parse_done(h: NlMsgHeader, tail: Seq<u8>, seq: u32, portid: u32)
    requires
        h.msg_type == NLMSG_DONE,
        16 <= h.len <= 16 + tail.len(),
        h.seq == seq,
        h.pid == portid,
    ensures
        parse_msg(header_bytes(h) + tail, seq, portid) == Ok::<
            (NlMsgHeader, NlMsgModel),
            DecodeError,
        >((h, NlMsgModel::Done)),
{
    reveal(parse_msg);
    lemma_header_of(h, tail);
}

/// A data message is told apart as what was written: its header, its family
/// header and its attribute stream, whatever stands after the message.
pub proof fn lemma_parse_message(
    h: NlMsgHeader,
    g: NfGenMsg,
    attrs: Seq<u8>,
    tail: Seq<u8>,
    seq: u32,
    portid: u32,
)
    requires
        h.len == 20 + attrs.len(),
        h.msg_type >= NLMSG_MIN_TYPE,
        h.msg_type == NFNL_MSG_BATCH_BEGIN || h.msg_type == NFNL_MSG_BATCH_END || subsystem_of(
            h.msg_type,
        ) == NFNL_SUBSYS_NFTABLES,
        g.version == NFNETLINK_V0,
        h.seq == seq,
        h.pid == portid,
    ensures
        parse_msg(header_bytes(h) + genmsg_bytes(g) + attrs + tail, seq, portid) == Ok::<
            (NlMsgHeader, NlMsgModel),
            DecodeError,
        >((h, NlMsgModel::NfGenMsg(g, attrs))),
{
    reveal(parse_msg);
    let b = header_bytes(h) + genmsg_bytes(g) + attrs + tail;
    lemma_header_of(h, genmsg_bytes(g) + attrs + tail);
    assert(header_bytes(h) + (genmsg_bytes(g) + attrs + tail) =~= b);
    lemma_be16_roundtrip(g.res_id);
    assert(b.subrange(16, 20) =~= genmsg_bytes(g));
    assert(genmsg_bytes(g).subrange(2, 4) =~= be16(g.res_id));
    assert(b.subrange(20, h.len as int) =~= attrs);
}

/// A header is read back as it was written.
pub proof fn lemma_header_of(h: NlMsgHeader, tail: Seq<u8>)
    ensures
        header_bytes(h).len() == 16,
        header_of(header_bytes(h) + tail) == h,
{
    let b = header_bytes(h) + tail;
    lemma_le32_roundtrip(h.len);
    lemma_le16_roundtrip(h.msg_type);
    lemma_le16_roundtrip(h.flags);
    lemma_le32_roundtrip(h.seq);
    lemma_le32_roundtrip(h.pid);
    assert(b.subrange(0, 4) =~= le32(h.len));
    assert(b.subrange(4, 6) =~= le16(h.msg_type));
    assert(b.subrange(6, 8) =~= le16(h.flags));
    assert(b.subrange(8, 12) =~= le32(h.seq));
    assert(b.subrange(12, 16) =~= le32(h.pid));
}

} // verus!
