//! Queries: the request that asks the kernel for all objects of a kind, the
//! reading of the answers, and the course of a query from its request to its
//! end.
//!
//! This module decides; it does not touch a socket. Whoever owns the socket
//! sends what a query asks to send, and hands the query what was received.

use vstd::prelude::*;
use vstd::slice::slice_subrange;
use crate::attr::{aligned, padding};
use crate::error::{BuilderError, DecodeError};
use crate::bytes::le32;
use crate::nlmsg::{
    decode_object, decode_object_model, errno_of_error, error_bytes, error_signed, genmsg_bytes, header_bytes,
    lemma_decode_object, lemma_header_of, lemma_parse_done, lemma_parse_error, lemma_parse_len,
    lemma_parse_message, message_bytes, message_fits, nft_msg_type, object_genmsg, parse_msg,
    parse_nlmsg, subsystem_of, write_header, write_message, NfGenMsg, NfNetlinkObject, NlMsg,
    NlMsgErr, NlMsgHeader, NlMsgModel,
};
use crate::schema::{fields_fit, fields_wire, lemma_wire_aligned, NfNetlinkAttribute};
use crate::sys::{
    NFNETLINK_V0, NFNL_SUBSYS_NFTABLES, NLMSG_DONE, NLMSG_ERROR, NLMSG_MIN_TYPE, NLM_F_MATCH,
    NLM_F_REQUEST, NLM_F_ROOT,
};

verus! {

/// Why a query, or the sending of a batch, failed.
#[derive(Clone, Copy, Debug, PartialEq, Eq, Structural)]
pub enum Error {
    /// The netlink socket could not be opened; the error number says why.
    NetlinkOpenError(i32),
    /// The request could not be sent; the error number says why.
    NetlinkSendError(i32),
    /// Nothing could be received; the error number says why.
    NetlinkRecvError(i32),
    /// A message from the kernel could not be decoded.
    ProcessNetlinkError(DecodeError),
    /// The kernel answered with an error; this is its record.
    NetlinkError(NlMsgErr),
    /// The request could not be built.
    InitError(BuilderError),
    /// A netlink object could not be allocated.
    NetlinkAllocationFailed,
    /// The socket is not a netlink socket.
    NotNetlinkSocket,
    /// Nothing could be learnt about the socket.
    RetrievingSocketInfoFailed,
    /// Only a part of the message was sent.
    TruncatedSend,
    /// The socket could not be closed; the error number says why.
    CloseFailed(i32),
    /// The query was handed something that it had not asked for.
    UnexpectedEvent,
}

/// The family header of a dump request: no family in particular.
pub open spec fn dump_genmsg() -> NfGenMsg {
    NfGenMsg { family: 0, version: NFNETLINK_V0, res_id: 0 }
}

/// The flags of a dump request: a request for every object that matches.
pub open spec fn dump_flags() -> u16 {
    NLM_F_REQUEST | NLM_F_ROOT | NLM_F_MATCH
}

/// The attribute stream of a filter: that of the object that only holds the
/// fields to match; empty when there is no filter.
pub open spec fn filter_wire<T: NfNetlinkAttribute>(filter: Option<T::V>) -> Seq<u8> {
    match filter {
        None => Seq::empty(),
        Some(m) => fields_wire(T::fields(m)),
    }
}

/// Whether a filter can be encoded.
pub open spec fn filter_fits<T: NfNetlinkAttribute>(filter: Option<T::V>) -> bool {
    match filter {
        None => true,
        Some(m) => fields_fit(T::fields(m)) && message_fits(fields_wire(T::fields(m))),
    }
}

/// Why a filter that cannot be encoded cannot: an attribute of it is too
/// long, or else the message is.
pub open spec fn filter_error<T: NfNetlinkAttribute>(filter: Option<T::V>) -> BuilderError {
    match filter {
        Some(m) => if fields_fit(T::fields(m)) {
            BuilderError::MessageTooLarge
        } else {
            BuilderError::AttributeTooLarge
        },
        None => BuilderError::MessageTooLarge,
    }
}

/// The model of an optional reference to an object.
pub open spec fn filter_model<T: NfNetlinkAttribute>(filter: Option<&T>) -> Option<T::V> {
    match filter {
        None => None,
        Some(o) => Some(o@),
    }
}

/// The request that asks for all objects of one kind, or for those that
/// match a filter.
pub open spec fn dump_request<T: NfNetlinkAttribute>(
    msg_type: u8,
    seq: u32,
    filter: Option<T::V>,
) -> Seq<u8> {
    message_bytes(
        nft_msg_type(msg_type),
        dump_flags(),
        seq,
        dump_genmsg(),
        filter_wire::<T>(filter),
    )
}

/// Builds the message that asks the kernel to list the objects of one kind:
/// `msg_type` is the "get" operation of that kind. With a filter, an object
/// that holds only the fields to match, the kernel lists the matching
/// objects only.
///
/// Fails exactly when the filter cannot be encoded.
pub fn get_list_of_objects<T: NfNetlinkAttribute>(
    msg_type: u8,
    seq: u32,
    filter: Option<&T>,
) -> (r: Result<Vec<u8>, Error>)
    ensures
        r is Ok <==> filter_fits::<T>(filter_model(filter)),
        r is Ok ==> r.unwrap()@ == dump_request::<T>(msg_type, seq, filter_model(filter)),
        r is Err ==> r == Err::<Vec<u8>, Error>(
            Error::InitError(filter_error::<T>(filter_model(filter))),
        ),
{
    let raw_type: u16 = NFNL_SUBSYS_NFTABLES as u16 * 0x100 + msg_type as u16;
    let flags = NLM_F_REQUEST | NLM_F_ROOT | NLM_F_MATCH;
    let g = NfGenMsg { family: 0, version: NFNETLINK_V0, res_id: 0 };
    let mut buffer: Vec<u8> = Vec::new();
    match filter {
        None => {
            write_header(&mut buffer, raw_type, flags, seq, g);
            assert(buffer@ =~= dump_request::<T>(msg_type, seq, None));
            Ok(buffer)
        },
        Some(obj) => match write_message(&mut buffer, raw_type, flags, seq, g, obj) {
            Ok(()) => {
                assert(buffer@ =~= dump_request::<T>(msg_type, seq, Some(obj@)));
                Ok(buffer)
            },
            Err(e) => Err(Error::InitError(e)),
        },
    }
}

/// A data message, as it was told apart from the others of a buffer.
#[derive(Clone, Copy, Debug, PartialEq, Eq)]
pub struct DataMessage<'a> {
    /// The message's header.
    pub header: NlMsgHeader,
    /// The message's family header.
    pub genmsg: NfGenMsg,
    /// The message's attribute stream.
    pub data: &'a [u8],
}

/// What a [`DataMessage`] holds, as plain values.
pub struct DataMessageModel {
    pub header: NlMsgHeader,
    pub genmsg: NfGenMsg,
    pub data: Seq<u8>,
}

impl<'a> View for DataMessage<'a> {
    type V = DataMessageModel;

    open spec fn view(&self) -> DataMessageModel {
        DataMessageModel { header: self.header, genmsg: self.genmsg, data: self.data@ }
    }
}

/// How the reading of one buffer ended.
#[derive(Clone, Copy, Debug, PartialEq, Eq, Structural)]
pub enum Outcome {
    /// The buffer is used up and the query is not over: receive again.
    More,
    /// The kernel said that it is done.
    Done,
    /// The query failed.
    Failed(Error),
}

/// What is left of a buffer after a message of length `len`: the bytes
/// after the message's padding, if the padding is all there.
pub open spec fn after_message(b: Seq<u8>, len: u32) -> Option<Seq<u8>> {
    if aligned(len as int) > b.len() {
        None
    } else {
        Some(b.subrange(aligned(len as int), b.len() as int))
    }
}

/// The models of a list of values.
pub open spec fn models<T: View>(v: Seq<T>) -> Seq<T::V> {
    v.map_values(|o: T| o@)
}

/// The data messages of a buffer, in the order in which they stand, and how
/// the reading ends.
///
/// Messages are read one after the other, each starting where the padding
/// of the one before ends. A noop message and an error message with error
/// number zero are passed over. A done message ends the reading and the
/// query. An error message with another error number, and a message that
/// cannot be told apart or whose padding is cut off, end both with an error.
/// Any other message is a data message.
pub open spec fn demux_from(b: Seq<u8>, seq: u32, portid: u32) -> (Seq<DataMessageModel>, Outcome)
    decreases b.len(),
    via demux_decreases
{
    if b.len() == 0 {
        (Seq::empty(), Outcome::More)
    } else {
        match parse_msg(b, seq, portid) {
            Err(e) => (Seq::empty(), Outcome::Failed(Error::ProcessNetlinkError(e))),
            Ok((h, msg)) => {
                let here = match msg {
                    NlMsgModel::NfGenMsg(g, data) => seq![
                        DataMessageModel { header: h, genmsg: g, data },
                    ],
                    _ => Seq::empty(),
                };
                if msg is Done {
                    (Seq::empty(), Outcome::Done)
                } else if msg is Error && msg->Error_0.error != 0 {
                    (Seq::empty(), Outcome::Failed(Error::NetlinkError(msg->Error_0)))
                } else {
                    match after_message(b, h.len) {
                        None => (
                            here,
                            Outcome::Failed(
                                Error::ProcessNetlinkError(DecodeError::MissingPadding),
                            ),
                        ),
                        Some(rest) => {
                            let (more, outcome) = demux_from(rest, seq, portid);
                            (here + more, outcome)
                        },
                    }
                }
            },
        }
    }
}

#[via_fn]
proof fn demux_decreases(b: Seq<u8>, seq: u32, portid: u32) {
    lemma_parse_len(b, seq, portid);
}

/// Tells the messages of one received buffer apart, as [`demux_from`] says:
/// returns the data messages in their order, and how the reading ended.
pub fn demux<'a>(buf: &'a [u8], seq: u32, portid: u32) -> (r: (Vec<DataMessage<'a>>, Outcome))
    ensures
        (models(r.0@), r.1) == demux_from(buf@, seq, portid),
{
    let mut out: Vec<DataMessage<'a>> = Vec::new();
    let mut pos: usize = 0;
    let n = buf.len();
    proof {
        assert(buf@.subrange(0, n as int) =~= buf@);
        assert(models(out@) =~= Seq::<DataMessageModel>::empty());
    }
    while pos < n
        invariant
            pos <= n,
            n == buf.len(),
            demux_from(buf@, seq, portid) == (
                models(out@) + demux_from(buf@.subrange(pos as int, n as int), seq, portid).0,
                demux_from(buf@.subrange(pos as int, n as int), seq, portid).1,
            ),
        decreases n - pos,
    {
        let ghost b = buf@.subrange(pos as int, n as int);
        let ghost before = models(out@);
        let rest = slice_subrange(buf, pos, n);
        proof {
            lemma_parse_len(b, seq, portid);
        }
        let (h, msg) = match parse_nlmsg(rest, seq, portid) {
            Err(e) => {
                proof {
                    assert(before + Seq::<DataMessageModel>::empty() =~= before);
                }
                return (out, Outcome::Failed(Error::ProcessNetlinkError(e)));
            },
            Ok(x) => x,
        };
        match msg {
            NlMsg::Done => {
                proof {
                    assert(before + Seq::<DataMessageModel>::empty() =~= before);
                }
                return (out, Outcome::Done);
            },
            NlMsg::Error(e) => {
                if e.error != 0 {
                    proof {
                        assert(before + Seq::<DataMessageModel>::empty() =~= before);
                    }
                    return (out, Outcome::Failed(Error::NetlinkError(e)));
                }
            },
            NlMsg::Noop => {},
            NlMsg::NfGenMsg(g, data) => {
                out.push(DataMessage { header: h, genmsg: g, data });
            },
        }
        let ghost here = match msg@ {
            NlMsgModel::NfGenMsg(g, data) => seq![DataMessageModel { header: h, genmsg: g, data }],
            _ => Seq::empty(),
        };
        proof {
            assert(models(out@) =~= before + here);
        }
        let len = h.len as usize;
        let pad = (4 - len % 4) % 4;
        if pad > n - pos - len {
            proof {
                assert((before + here) + Seq::<DataMessageModel>::empty() =~= before + here);
            }
            return (out, Outcome::Failed(Error::ProcessNetlinkError(DecodeError::MissingPadding)));
        }
        proof {
            let step = aligned(len as int);
            let tail = b.subrange(step, b.len() as int);
            assert(tail =~= buf@.subrange(pos + len + pad, n as int));
            let (more, outcome) = demux_from(tail, seq, portid);
            assert(before + (here + more) =~= (before + here) + more);
        }
        pos = pos + len + pad;
    }
    proof {
        assert(models(out@) + Seq::<DataMessageModel>::empty() =~= models(out@));
    }
    (out, Outcome::More)
}

/// The objects that a list of data messages decodes to, appended to `acc`:
/// every message is decoded in order, and the first that cannot be decoded
/// ends the decoding with its error, after the objects before it.
pub open spec fn collect_from<T: NfNetlinkObject>(
    acc: Seq<T::V>,
    messages: Seq<DataMessageModel>,
    i: int,
) -> (Seq<T::V>, Result<(), DecodeError>)
    decreases messages.len() - i,
{
    if i < 0 || i >= messages.len() {
        (acc, Ok(()))
    } else {
        match decode_object_model::<T>(messages[i].genmsg, messages[i].data) {
            Err(e) => (acc, Err(e)),
            Ok(o) => collect_from::<T>(acc.push(o), messages, i + 1),
        }
    }
}

/// Decodes the object of every data message, in order, and appends it to
/// `working_data`, as [`collect_from`] says.
pub fn collect<T: NfNetlinkObject>(
    messages: &Vec<DataMessage<'_>>,
    working_data: &mut Vec<T>,
) -> (r: Result<(), DecodeError>)
    ensures
        (models(final(working_data)@), r) == collect_from::<T>(
            models(old(working_data)@),
            models(messages@),
            0,
        ),
{
    let mut i: usize = 0;
    while i < messages.len()
        invariant
            i <= messages.len(),
            collect_from::<T>(models(working_data@), models(messages@), i as int)
                == collect_from::<T>(models(old(working_data)@), models(messages@), 0),
        decreases messages.len() - i,
    {
        let m = &messages[i];
        let ghost before = models(working_data@);
        match decode_object::<T>(&m.genmsg, m.data) {
            Err(e) => {
                return Err(e);
            },
            Ok(o) => {
                working_data.push(o);
                proof {
                    assert(models(working_data@) =~= before.push(o@));
                }
            },
        }
        i += 1;
    }
    Ok(())
}

/// What reading one buffer does to the objects gathered so far, and how it
/// ends: whether the query is done, or why it failed.
///
/// The data messages before the end of the reading are decoded in order; a
/// message that cannot be decoded fails the query, whatever stands after it.
pub open spec fn process_from<T: NfNetlinkObject>(
    acc: Seq<T::V>,
    b: Seq<u8>,
    seq: u32,
    portid: u32,
) -> (Seq<T::V>, Result<bool, Error>) {
    let (messages, outcome) = demux_from(b, seq, portid);
    let (objects, decoded) = collect_from::<T>(acc, messages, 0);
    match decoded {
        Err(e) => (objects, Err(Error::ProcessNetlinkError(e))),
        Ok(()) => match outcome {
            Outcome::More => (objects, Ok(false)),
            Outcome::Done => (objects, Ok(true)),
            Outcome::Failed(e) => (objects, Err(e)),
        },
    }
}

/// Reads one received buffer: tells its messages apart, decodes the object
/// of every data message and appends it to `working_data`, in the order of
/// arrival. Returns whether the kernel said that it is done; if not, there
/// is more to receive.
pub fn recv_and_process<T: NfNetlinkObject>(
    buf: &[u8],
    working_data: &mut Vec<T>,
    seq: u32,
    portid: u32,
) -> (r: Result<bool, Error>)
    ensures
        (models(final(working_data)@), r) == process_from::<T>(
            models(old(working_data)@),
            buf@,
            seq,
            portid,
        ),
{
    let (messages, outcome) = demux(buf, seq, portid);
    match collect(&messages, working_data) {
        Err(e) => Err(Error::ProcessNetlinkError(e)),
        Ok(()) => match outcome {
            Outcome::More => Ok(false),
            Outcome::Done => Ok(true),
            Outcome::Failed(e) => Err(e),
        },
    }
}

/// How reading one buffer of answers to a batch ends: data messages are
/// passed over, and only the kernel's word counts.
pub open spec fn acks_from(b: Seq<u8>, seq: u32, portid: u32) -> Result<bool, Error> {
    match demux_from(b, seq, portid).1 {
        Outcome::More => Ok(false),
        Outcome::Done => Ok(true),
        Outcome::Failed(e) => Err(e),
    }
}

/// Reads one buffer of answers to a batch. Returns whether the kernel said
/// that it is done, and fails with the first error that the kernel reports.
pub fn process_acks(buf: &[u8], seq: u32, portid: u32) -> (r: Result<bool, Error>)
    ensures
        r == acks_from(buf@, seq, portid),
{
    let (_, outcome) = demux(buf, seq, portid);
    match outcome {
        Outcome::More => Ok(false),
        Outcome::Done => Ok(true),
        Outcome::Failed(e) => Err(e),
    }
}

/// Whether what was sent is all that was to be sent: a batch must go out
/// as a whole.
pub fn check_sent(sent: usize, expected: usize) -> (r: Result<(), Error>)
    ensures
        r is Ok <==> sent >= expected,
        r is Err ==> r == Err::<(), Error>(Error::TruncatedSend),
{
    if sent < expected {
        Err(Error::TruncatedSend)
    } else {
        Ok(())
    }
}

/// Where a query stands.
#[derive(Clone, Copy, Debug, PartialEq, Eq, Structural)]
pub enum QueryState {
    /// Nothing has happened yet.
    Idle,
    /// The request is being sent.
    RequestSent,
    /// The answers are being received.
    Receiving,
    /// The kernel has sent everything.
    Done,
    /// The query has failed.
    Errored(Error),
}

/// What happened on the socket since the query last asked for something.
#[derive(Clone, Copy, Debug, PartialEq, Eq)]
pub enum QueryEvent<'a> {
    /// The query is to begin.
    Start,
    /// The request was sent.
    Sent,
    /// The request could not be sent; the error number says why.
    SendFailed(i32),
    /// These bytes were received. No bytes means that nothing more comes.
    Received(&'a [u8]),
    /// Nothing could be received; the error number says why.
    ReceiveFailed(i32),
}

/// What a [`QueryEvent`] holds, as plain values.
pub enum QueryEventModel {
    Start,
    Sent,
    SendFailed(i32),
    Received(Seq<u8>),
    ReceiveFailed(i32),
}

impl<'a> View for QueryEvent<'a> {
    type V = QueryEventModel;

    open spec fn view(&self) -> QueryEventModel {
        match self {
            QueryEvent::Start => QueryEventModel::Start,
            QueryEvent::Sent => QueryEventModel::Sent,
            QueryEvent::SendFailed(e) => QueryEventModel::SendFailed(*e),
            QueryEvent::Received(b) => QueryEventModel::Received(b@),
            QueryEvent::ReceiveFailed(e) => QueryEventModel::ReceiveFailed(*e),
        }
    }
}

/// What the owner of the socket is to do next.
#[derive(Clone, Copy, Debug, PartialEq, Eq, Structural)]
pub enum QueryAction {
    /// Send the query's request.
    Send,
    /// Receive, and hand over what was received.
    Receive,
    /// Nothing more: the query is over and its objects are complete.
    Finish,
    /// Nothing more: the query has failed.
    Fail(Error),
}

/// What a query holds: where it stands, the numbers that its answers must
/// carry, its request, and the objects gathered so far.
pub struct QueryModel<V> {
    pub state: QueryState,
    pub seq: u32,
    pub portid: u32,
    pub request: Seq<u8>,
    pub objects: Seq<V>,
}

/// The query after an event, and what is to be done next.
///
/// A query goes from idle to sending its request, then receives until the
/// kernel says that it is done, or until nothing more comes. An error on the
/// socket, an error from the kernel and a message that cannot be decoded end
/// it as failed; so does an event that the query has not asked for. Once
/// it is over, nothing changes it.
pub open spec fn query_step<T: NfNetlinkObject>(m: QueryModel<T::V>, ev: QueryEventModel) -> (
    QueryModel<T::V>,
    QueryAction,
) {
    match m.state {
        QueryState::Done => (m, QueryAction::Finish),
        QueryState::Errored(e) => (m, QueryAction::Fail(e)),
        QueryState::Idle => match ev {
            QueryEventModel::Start => (
                QueryModel { state: QueryState::RequestSent, ..m },
                QueryAction::Send,
            ),
            _ => query_failed(m, Error::UnexpectedEvent),
        },
        QueryState::RequestSent => match ev {
            QueryEventModel::Sent => (
                QueryModel { state: QueryState::Receiving, ..m },
                QueryAction::Receive,
            ),
            QueryEventModel::SendFailed(errno) => query_failed(m, Error::NetlinkSendError(errno)),
            _ => query_failed(m, Error::UnexpectedEvent),
        },
        QueryState::Receiving => match ev {
            QueryEventModel::Received(b) => if b.len() == 0 {
                (QueryModel { state: QueryState::Done, ..m }, QueryAction::Finish)
            } else {
                let (objects, r) = process_from::<T>(m.objects, b, m.seq, m.portid);
                match r {
                    Ok(done) => if done {
                        (QueryModel { state: QueryState::Done, objects, ..m }, QueryAction::Finish)
                    } else {
                        (
                            QueryModel { state: QueryState::Receiving, objects, ..m },
                            QueryAction::Receive,
                        )
                    },
                    Err(e) => (
                        QueryModel { state: QueryState::Errored(e), objects, ..m },
                        QueryAction::Fail(e),
                    ),
                }
            },
            QueryEventModel::ReceiveFailed(errno) => query_failed(
                m,
                Error::NetlinkRecvError(errno),
            ),
            _ => query_failed(m, Error::UnexpectedEvent),
        },
    }
}

/// The query that has just failed with `e`.
pub open spec fn query_failed<V>(m: QueryModel<V>, e: Error) -> (QueryModel<V>, QueryAction) {
    (QueryModel { state: QueryState::Errored(e), ..m }, QueryAction::Fail(e))
}

/// One query: a dump of the objects of one kind.
pub struct QuerySession<T> {
    state: QueryState,
    seq: u32,
    portid: u32,
    request: Vec<u8>,
    objects: Vec<T>,
}

impl<T: NfNetlinkObject> View for QuerySession<T> {
    type V = QueryModel<T::V>;

    closed spec fn view(&self) -> QueryModel<T::V> {
        QueryModel {
            state: self.state,
            seq: self.seq,
            portid: self.portid,
            request: self.request@,
            objects: models(self.objects@),
        }
    }
}

impl<T: NfNetlinkObject> QuerySession<T> {
    /// A query for the objects of the kind whose "get" operation is
    /// `msg_type`, or for those of them that match `filter`. The request
    /// carries `seq`, and only the answers that carry `seq` and `portid`,
    /// the port id of the socket that the request is sent from, are taken.
    ///
    /// Fails exactly when the filter cannot be encoded.
    pub fn new(msg_type: u8, filter: Option<&T>, seq: u32, portid: u32) -> (r: Result<Self, Error>)
        ensures
            r is Ok <==> filter_fits::<T>(filter_model(filter)),
            r is Ok ==> r.unwrap()@ == (QueryModel {
                state: QueryState::Idle,
                seq,
                portid,
                request: dump_request::<T>(msg_type, seq, filter_model(filter)),
                objects: Seq::<T::V>::empty(),
            }),
            r is Err ==> r == Err::<Self, Error>(
                Error::InitError(filter_error::<T>(filter_model(filter))),
            ),
    {
        match get_list_of_objects::<T>(msg_type, seq, filter) {
            Err(e) => Err(e),
            Ok(request) => {
                let objects: Vec<T> = Vec::new();
                assert(models(objects@) =~= Seq::<T::V>::empty());
                Ok(QuerySession { state: QueryState::Idle, seq, portid, request, objects })
            },
        }
    }

    /// A query for the objects of the kind `T`, or for those of them that
    /// match `filter`: the request asks for the operation that lists the
    /// objects of that kind.
    ///
    /// Fails exactly when the filter cannot be encoded.
    pub fn list(filter: Option<&T>, seq: u32, portid: u32) -> (r: Result<Self, Error>)
        ensures
            r is Ok <==> filter_fits::<T>(filter_model(filter)),
            r is Ok ==> r.unwrap()@ == (QueryModel {
                state: QueryState::Idle,
                seq,
                portid,
                request: dump_request::<T>(T::msg_type_get(), seq, filter_model(filter)),
                objects: Seq::<T::V>::empty(),
            }),
            r is Err ==> r == Err::<Self, Error>(
                Error::InitError(filter_error::<T>(filter_model(filter))),
            ),
    {
        QuerySession::new(T::get_msg_type_get(), filter, seq, portid)
    }

    /// Where the query stands.
    pub fn get_state(&self) -> (s: QueryState)
        ensures
            s == self@.state,
    {
        self.state
    }

    /// The request to send.
    pub fn get_request(&self) -> (b: &[u8])
        ensures
            b@ == self@.request,
    {
        self.request.as_slice()
    }

    /// Takes in what happened on the socket and tells what to do next, as
    /// [`query_step`] says.
    pub fn step(&mut self, event: QueryEvent<'_>) -> (action: QueryAction)
        ensures
            (final(self)@, action) == query_step::<T>(old(self)@, event@),
    {
        match self.state {
            QueryState::Done => QueryAction::Finish,
            QueryState::Errored(e) => QueryAction::Fail(e),
            QueryState::Idle => match event {
                QueryEvent::Start => {
                    self.state = QueryState::RequestSent;
                    QueryAction::Send
                },
                _ => self.fail(Error::UnexpectedEvent),
            },
            QueryState::RequestSent => match event {
                QueryEvent::Sent => {
                    self.state = QueryState::Receiving;
                    QueryAction::Receive
                },
                QueryEvent::SendFailed(errno) => self.fail(Error::NetlinkSendError(errno)),
                _ => self.fail(Error::UnexpectedEvent),
            },
            QueryState::Receiving => match event {
                QueryEvent::Received(b) => {
                    if b.len() == 0 {
                        self.state = QueryState::Done;
                        QueryAction::Finish
                    } else {
                        match recv_and_process(b, &mut self.objects, self.seq, self.portid) {
                            Ok(done) => {
                                if done {
                                    self.state = QueryState::Done;
                                    QueryAction::Finish
                                } else {
                                    QueryAction::Receive
                                }
                            },
                            Err(e) => {
                                self.state = QueryState::Errored(e);
                                QueryAction::Fail(e)
                            },
                        }
                    }
                },
                QueryEvent::ReceiveFailed(errno) => self.fail(Error::NetlinkRecvError(errno)),
                _ => self.fail(Error::UnexpectedEvent),
            },
        }
    }

    /// Ends the query as failed.
    fn fail(&mut self, e: Error) -> (action: QueryAction)
        ensures
            (final(self)@, action) == query_failed(old(self)@, e),
    {
        self.state = QueryState::Errored(e);
        QueryAction::Fail(e)
    }

    /// The objects gathered so far, in the order in which they arrived.
    pub fn get_objects(&self) -> (v: &Vec<T>)
        ensures
            models(v@) == self@.objects,
    {
        &self.objects
    }

    /// Ends the query and hands out its objects, in the order in which they
    /// arrived.
    pub fn into_objects(self) -> (v: Vec<T>)
        ensures
            models(v@) == self@.objects,
    {
        self.objects
    }
}

/// One answer to a dump: the header that the kernel gave the message, and
/// the object that the message carries.
pub struct Answer<V> {
    pub header: NlMsgHeader,
    pub object: V,
}

/// The message of one answer.
pub open spec fn answer_bytes<T: NfNetlinkObject>(a: Answer<T::V>) -> Seq<u8> {
    header_bytes(a.header) + genmsg_bytes(object_genmsg(T::family_of(a.object))) + fields_wire(
        T::fields(a.object),
    )
}

/// Whether an answer is one that a session with the given numbers takes: a
/// message of the packet-filter subsystem with the length of its content,
/// that carries the session's numbers and an object that can be encoded.
pub open spec fn answer_ok<T: NfNetlinkObject>(a: Answer<T::V>, seq: u32, portid: u32) -> bool {
    &&& a.header.len == 20 + fields_wire(T::fields(a.object)).len()
    &&& a.header.msg_type >= NLMSG_MIN_TYPE
    &&& subsystem_of(a.header.msg_type) == NFNL_SUBSYS_NFTABLES
    &&& a.header.seq == seq
    &&& a.header.pid == portid
    &&& T::valid(a.object)
    &&& fields_fit(T::fields(a.object))
}

/// The messages of the answers from the `i`-th on, one after the other.
pub open spec fn answers_bytes<T: NfNetlinkObject>(answers: Seq<Answer<T::V>>, i: int) -> Seq<u8>
    decreases answers.len() - i,
{
    if i < 0 || i >= answers.len() {
        Seq::empty()
    } else {
        answer_bytes::<T>(answers[i]) + answers_bytes::<T>(answers, i + 1)
    }
}

/// The data messages of the answers from the `i`-th on.
pub open spec fn answers_messages<T: NfNetlinkObject>(answers: Seq<Answer<T::V>>, i: int) -> Seq<
    DataMessageModel,
>
    decreases answers.len() - i,
{
    if i < 0 || i >= answers.len() {
        Seq::empty()
    } else {
        seq![
            DataMessageModel {
                header: answers[i].header,
                genmsg: object_genmsg(T::family_of(answers[i].object)),
                data: fields_wire(T::fields(answers[i].object)),
            },
        ] + answers_messages::<T>(answers, i + 1)
    }
}

/// The objects of the answers from the `i`-th on.
pub open spec fn answers_objects<V>(answers: Seq<Answer<V>>, i: int) -> Seq<V>
    decreases answers.len() - i,
{
    if i < 0 || i >= answers.len() {
        Seq::empty()
    } else {
        seq![answers[i].object] + answers_objects(answers, i + 1)
    }
}

/// A done message: its header and the four bytes that follow it.
pub open spec fn done_bytes(h: NlMsgHeader) -> Seq<u8> {
    header_bytes(h) + le32(0)
}

/// Whether a header is that of a done message which a session with the
/// given numbers takes.
pub open spec fn done_ok(h: NlMsgHeader, seq: u32, portid: u32) -> bool {
    &&& h.msg_type == NLMSG_DONE
    &&& h.len == 20
    &&& h.seq == seq
    &&& h.pid == portid
}

/// A buffer that starts with a done message is read as done, whatever
/// stands after that message.
pub proof fn lemma_demux_done(done: NlMsgHeader, tail: Seq<u8>, seq: u32, portid: u32)
    requires
        done_ok(done, seq, portid),
    ensures
        demux_from(done_bytes(done) + tail, seq, portid) == (
            Seq::<DataMessageModel>::empty(),
            Outcome::Done,
        ),
{
    let b = done_bytes(done) + tail;
    assert(b =~= header_bytes(done) + (le32(0) + tail));
    lemma_header_of(done, le32(0) + tail);
    lemma_parse_done(done, le32(0) + tail, seq, portid);
}

/// A buffer that starts with an error message whose error is not zero ends
/// the reading with the kernel's error: the error carries the record as the
/// kernel wrote it, whose error number is the written number without its
/// sign, and the header of the request. No object is added to those gathered
/// before, and what stands after the message is not read.
pub proof fn lemma_kernel_error<T: NfNetlinkObject>(
    acc: Seq<T::V>,
    h: NlMsgHeader,
    raw: u32,
    request: NlMsgHeader,
    tail: Seq<u8>,
    seq: u32,
    portid: u32,
)
    requires
        h.msg_type == NLMSG_ERROR,
        h.len == 36,
        h.seq == seq,
        h.pid == portid,
        raw != 0,
    ensures
        errno_of_error(error_signed(raw)) != 0,
        raw < 0x8000_0000 ==> errno_of_error(error_signed(raw)) == raw,
        raw >= 0x8000_0000 ==> errno_of_error(error_signed(raw)) == 0x1_0000_0000 - raw,
        demux_from(error_bytes(h, raw, request) + tail, seq, portid) == (
            Seq::<DataMessageModel>::empty(),
            Outcome::Failed(Error::NetlinkError(NlMsgErr { error: error_signed(raw), msg: request })),
        ),
        process_from::<T>(acc, error_bytes(h, raw, request) + tail, seq, portid) == (
            acc,
            Err::<bool, Error>(
                Error::NetlinkError(NlMsgErr { error: error_signed(raw), msg: request }),
            ),
        ),
        acks_from(error_bytes(h, raw, request) + tail, seq, portid) == Err::<bool, Error>(
            Error::NetlinkError(NlMsgErr { error: error_signed(raw), msg: request }),
        ),
{
    lemma_parse_error(h, raw, request, tail, seq, portid);
    lemma_header_of(h, le32(raw) + header_bytes(request) + tail);
}

/// A buffer that starts with a data message is read as that message, then
/// as what the rest of the buffer is read as.
pub proof fn lemma_demux_data(
    h: NlMsgHeader,
    g: NfGenMsg,
    attrs: Seq<u8>,
    rest: Seq<u8>,
    seq: u32,
    portid: u32,
)
    requires
        h.len == 20 + attrs.len(),
        attrs.len() % 4 == 0,
        h.msg_type >= NLMSG_MIN_TYPE,
        subsystem_of(h.msg_type) == NFNL_SUBSYS_NFTABLES,
        g.version == NFNETLINK_V0,
        h.seq == seq,
        h.pid == portid,
    ensures
        demux_from(header_bytes(h) + genmsg_bytes(g) + attrs + rest, seq, portid) == (
            seq![DataMessageModel { header: h, genmsg: g, data: attrs }] + demux_from(
                rest,
                seq,
                portid,
            ).0,
            demux_from(rest, seq, portid).1,
        ),
{
    let b = header_bytes(h) + genmsg_bytes(g) + attrs + rest;
    lemma_parse_message(h, g, attrs, rest, seq, portid);
    lemma_header_of(h, genmsg_bytes(g) + attrs + rest);
    assert(b.len() == 20 + attrs.len() + rest.len());
    assert(aligned(h.len as int) == h.len);
    assert(b.subrange(aligned(h.len as int), b.len() as int) =~= rest);
    assert(after_message(b, h.len) == Some(rest));
}

/// A buffer of answers that ends with a done message is told apart into
/// exactly those answers, in their order, and the reading ends as done,
/// whatever stands after the done message.
pub proof fn lemma_demux_answers<T: NfNetlinkObject>(
    answers: Seq<Answer<T::V>>,
    i: int,
    done: NlMsgHeader,
    tail: Seq<u8>,
    seq: u32,
    portid: u32,
)
    requires
        0 <= i <= answers.len(),
        forall|k: int|
            0 <= k < answers.len() ==> answer_ok::<T>(#[trigger] answers[k], seq, portid),
        done_ok(done, seq, portid),
    ensures
        demux_from(answers_bytes::<T>(answers, i) + done_bytes(done) + tail, seq, portid) == (
            answers_messages::<T>(answers, i),
            Outcome::Done,
        ),
    decreases answers.len() - i,
{
    let b = answers_bytes::<T>(answers, i) + done_bytes(done) + tail;
    if i == answers.len() {
        assert(b =~= done_bytes(done) + tail);
        lemma_demux_done(done, tail, seq, portid);
    } else {
        let a = answers[i];
        assert(answer_ok::<T>(a, seq, portid));
        let g = object_genmsg(T::family_of(a.object));
        let wire = fields_wire(T::fields(a.object));
        let rest = answers_bytes::<T>(answers, i + 1) + done_bytes(done) + tail;
        assert(b =~= header_bytes(a.header) + genmsg_bytes(g) + wire + rest);
        lemma_wire_aligned(T::fields(a.object), 0);
        lemma_demux_data(a.header, g, wire, rest, seq, portid);
        lemma_demux_answers::<T>(answers, i + 1, done, tail, seq, portid);
        assert(seq![DataMessageModel { header: a.header, genmsg: g, data: wire }]
            + answers_messages::<T>(answers, i + 1) =~= answers_messages::<T>(answers, i));
    }
}

/// The data messages of answers decode to the objects of those answers, in
/// their order.
pub proof fn lemma_collect_answers<T: NfNetlinkObject>(
    acc: Seq<T::V>,
    answers: Seq<Answer<T::V>>,
    i: int,
    seq: u32,
    portid: u32,
)
    requires
        0 <= i <= answers.len(),
        forall|k: int|
            0 <= k < answers.len() ==> answer_ok::<T>(#[trigger] answers[k], seq, portid),
    ensures
        collect_from::<T>(acc, answers_messages::<T>(answers, 0), i) == (
            acc + answers_objects(answers, i),
            Ok::<(), DecodeError>(()),
        ),
    decreases answers.len() - i,
{
    let msgs = answers_messages::<T>(answers, 0);
    lemma_answers_messages::<T>(answers, 0);
    if i == answers.len() {
        assert(acc + answers_objects(answers, i) =~= acc);
    } else {
        let a = answers[i];
        assert(answer_ok::<T>(a, seq, portid));
        assert(msgs[i - 0] == (DataMessageModel {
            header: a.header,
            genmsg: object_genmsg(T::family_of(a.object)),
            data: fields_wire(T::fields(a.object)),
        }));
        lemma_decode_object::<T>(a.object);
        assert(decode_object_model::<T>(msgs[i].genmsg, msgs[i].data) == Ok::<T::V, DecodeError>(
            a.object,
        ));
        lemma_collect_answers::<T>(acc.push(a.object), answers, i + 1, seq, portid);
        assert(acc.push(a.object) + answers_objects(answers, i + 1) =~= acc + answers_objects(
            answers,
            i,
        ));
    }
}

/// The data messages of the answers from the `i`-th on are one for every
/// answer, each with the header, the family header and the attribute stream
/// of its answer.
pub proof fn lemma_answers_messages<T: NfNetlinkObject>(answers: Seq<Answer<T::V>>, i: int)
    requires
        0 <= i <= answers.len(),
    ensures
        answers_messages::<T>(answers, i).len() == answers.len() - i,
        forall|k: int|
            i <= k < answers.len() ==> (#[trigger] answers_messages::<T>(answers, i)[k - i])
                == (DataMessageModel {
                header: answers[k].header,
                genmsg: object_genmsg(T::family_of(answers[k].object)),
                data: fields_wire(T::fields(answers[k].object)),
            }),
    decreases answers.len() - i,
{
    if i < answers.len() {
        lemma_answers_messages::<T>(answers, i + 1);
        let here = answers_messages::<T>(answers, i);
        let next = answers_messages::<T>(answers, i + 1);
        assert forall|k: int| i <= k < answers.len() implies (#[trigger] here[k - i]) == (
        DataMessageModel {
            header: answers[k].header,
            genmsg: object_genmsg(T::family_of(answers[k].object)),
            data: fields_wire(T::fields(answers[k].object)),
        }) by {
            if k > i {
                assert(here[k - i] == next[k - (i + 1)]);
            }
        }
    }
}

/// One buffer that holds the answers of a dump and then a done message
/// gives exactly the objects of those answers, as many as there are answers
/// and in the order of the answers, after the objects gathered before; and
/// the query ends as done.
pub proof fn lemma_process_answers<T: NfNetlinkObject>(
    acc: Seq<T::V>,
    answers: Seq<Answer<T::V>>,
    done: NlMsgHeader,
    tail: Seq<u8>,
    seq: u32,
    portid: u32,
)
    requires
        forall|k: int|
            0 <= k < answers.len() ==> answer_ok::<T>(#[trigger] answers[k], seq, portid),
        done_ok(done, seq, portid),
    ensures
        demux_from(answers_bytes::<T>(answers, 0) + done_bytes(done) + tail, seq, portid).0.len()
            == answers.len(),
        process_from::<T>(
            acc,
            answers_bytes::<T>(answers, 0) + done_bytes(done) + tail,
            seq,
            portid,
        ) == (acc + answers_objects(answers, 0), Ok::<bool, Error>(true)),
        answers_objects(answers, 0).len() == answers.len(),
        forall|k: int|
            0 <= k < answers.len() ==> (#[trigger] answers_objects(answers, 0)[k])
                == answers[k].object,
{
    let b = answers_bytes::<T>(answers, 0) + done_bytes(done) + tail;
    lemma_demux_answers::<T>(answers, 0, done, tail, seq, portid);
    lemma_answers_messages::<T>(answers, 0);
    lemma_collect_answers::<T>(acc, answers, 0, seq, portid);
    lemma_answers_objects(answers, 0);
    assert(demux_from(b, seq, portid) == (answers_messages::<T>(answers, 0), Outcome::Done));
    assert(collect_from::<T>(acc, answers_messages::<T>(answers, 0), 0) == (
        acc + answers_objects(answers, 0),
        Ok::<(), DecodeError>(()),
    ));
    assert forall|k: int| 0 <= k < answers.len() implies (#[trigger] answers_objects(answers, 0)[k])
        == answers[k].object by {
        assert(answers_objects(answers, 0)[k - 0] == answers[k].object);
    }
}

/// The objects of the answers from the `i`-th on are one for every answer,
/// in the order of the answers.
pub proof fn lemma_answers_objects<V>(answers: Seq<Answer<V>>, i: int)
    requires
        0 <= i <= answers.len(),
    ensures
        answers_objects(answers, i).len() == answers.len() - i,
        forall|k: int|
            i <= k < answers.len() ==> (#[trigger] answers_objects(answers, i)[k - i])
                == answers[k].object,
    decreases answers.len() - i,
{
    if i < answers.len() {
        lemma_answers_objects(answers, i + 1);
        let here = answers_objects(answers, i);
        let next = answers_objects(answers, i + 1);
        assert forall|k: int| i <= k < answers.len() implies (#[trigger] here[k - i])
            == answers[k].object by {
            if k > i {
                assert(here[k - i] == next[k - (i + 1)]);
            }
        }
    }
}

} // verus!
