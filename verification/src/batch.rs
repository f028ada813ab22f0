//! The batch: a sequence of operations that the kernel applies together or
//! not at all.
//!
//! A batch is sent as one byte stream: a message that begins the batch, one
//! message for every operation, and a message that ends it, all with the
//! same sequence number.

use vstd::prelude::*;
use crate::error::BuilderError;
use crate::family::{MsgType, ProtocolFamily};
use crate::bytes::{le16, le32};
use crate::nlmsg::{
    add_or_remove, genmsg_bytes, message_bytes, message_fits, nft_msg_type, object_flags,
    object_genmsg, object_operation, write_header, NfGenMsg, NfNetlinkObject,
};
use crate::schema::{fields_fit, fields_wire};
use crate::sys::{
    NFNETLINK_V0, NFNL_MSG_BATCH_BEGIN, NFNL_MSG_BATCH_END, NFNL_SUBSYS_NFTABLES, NLM_F_REQUEST,
};

verus! {

/// One operation of a batch: the encoded object and what its message's
/// headers say.
pub struct BatchEntry {
    /// The operation: the message type without the subsystem.
    pub operation: u8,
    /// The flags of the message.
    pub flags: u16,
    /// The family of the object.
    pub family: ProtocolFamily,
    /// The attribute stream of the object.
    pub attrs: Seq<u8>,
}

/// What a batch holds: its sequence number and its operations, in the order
/// in which they were added.
pub struct BatchModel {
    pub seq: u32,
    pub entries: Seq<BatchEntry>,
}

/// The entry that adding an object to a batch makes.
pub open spec fn entry_of<T: NfNetlinkObject>(m: T::V, op: MsgType) -> BatchEntry {
    BatchEntry {
        operation: object_operation::<T>(op),
        flags: object_flags::<T>(op),
        family: T::family_of(m),
        attrs: fields_wire(T::fields(m)),
    }
}

/// The message of one operation, under the batch's sequence number.
pub open spec fn entry_bytes(e: BatchEntry, seq: u32) -> Seq<u8> {
    message_bytes(nft_msg_type(e.operation), e.flags, seq, object_genmsg(e.family), e.attrs)
}

/// The family header of the two messages that frame a batch: it names the
/// subsystem that the batch is for.
pub open spec fn frame_genmsg() -> NfGenMsg {
    NfGenMsg { family: 0, version: NFNETLINK_V0, res_id: NFNL_SUBSYS_NFTABLES as u16 }
}

/// The message that begins a batch.
pub open spec fn begin_bytes(seq: u32) -> Seq<u8> {
    message_bytes(NFNL_MSG_BATCH_BEGIN, NLM_F_REQUEST, seq, frame_genmsg(), Seq::empty())
}

/// The message that ends a batch.
pub open spec fn end_bytes(seq: u32) -> Seq<u8> {
    message_bytes(NFNL_MSG_BATCH_END, NLM_F_REQUEST, seq, frame_genmsg(), Seq::empty())
}

/// The messages of the first `k` operations, one after the other.
pub open spec fn body_bytes(entries: Seq<BatchEntry>, seq: u32, k: int) -> Seq<u8>
    decreases k,
{
    if k <= 0 || k > entries.len() {
        Seq::empty()
    } else {
        body_bytes(entries, seq, k - 1) + entry_bytes(entries[k - 1], seq)
    }
}

/// The byte stream of a finalized batch.
pub open spec fn batch_bytes(m: BatchModel) -> Seq<u8> {
    begin_bytes(m.seq) + body_bytes(m.entries, m.seq, m.entries.len() as int) + end_bytes(m.seq)
}

/// The messages of the operations added so far, and what they stand for.
struct Body {
    buf: Vec<u8>,
    entries: Ghost<Seq<BatchEntry>>,
}

/// A batch under construction.
pub struct Batch {
    body: Body,
    seq: u32,
}

impl View for Batch {
    type V = BatchModel;

    closed spec fn view(&self) -> BatchModel {
        BatchModel { seq: self.seq, entries: self.body.entries@ }
    }
}

/// A finalized batch: a byte stream ready to be sent, and the sequence
/// number that its messages carry. It cannot be changed.
pub struct FinalizedBatch {
    bytes: Vec<u8>,
    seq: u32,
}

impl View for FinalizedBatch {
    type V = Seq<u8>;

    closed spec fn view(&self) -> Seq<u8> {
        self.bytes@
    }
}

impl FinalizedBatch {
    /// The sequence number that every message of the batch carries, and
    /// that the kernel's answers to it carry.
    pub closed spec fn seq(&self) -> u32 {
        self.seq
    }

    /// The sequence number that every message of the batch carries, and
    /// that the kernel's answers to it carry.
    pub fn get_seq(&self) -> (s: u32)
        ensures
            s == self.seq(),
    {
        self.seq
    }

    /// The bytes to send.
    pub fn as_bytes(&self) -> (b: &[u8])
        ensures
            b@ == self@,
    {
        self.bytes.as_slice()
    }

    /// The bytes to send, as a vector of their own.
    pub fn into_bytes(self) -> (b: Vec<u8>)
        ensures
            b@ == self@,
    {
        self.bytes
    }
}

impl Batch {
    #[verifier::type_invariant]
    spec fn inv(self) -> bool {
        self.body.buf@ == body_bytes(
            self.body.entries@,
            self.seq,
            self.body.entries@.len() as int,
        )
    }

    /// An empty batch with sequence number zero.
    pub fn new() -> (r: Self)
        ensures
            r@ == (BatchModel { seq: 0, entries: Seq::empty() }),
    {
        Batch::with_seq(0)
    }

    /// An empty batch with the given sequence number.
    pub fn with_seq(seq: u32) -> (r: Self)
        ensures
            r@ == (BatchModel { seq, entries: Seq::empty() }),
    {
        Batch { body: Body { buf: Vec::new(), entries: Ghost(Seq::empty()) }, seq }
    }

    /// The sequence number that every message of the batch carries.
    pub fn get_seq(&self) -> (s: u32)
        ensures
            s == self@.seq,
    {
        self.seq
    }

    /// Whether no operation has been added yet.
    pub fn is_empty(&self) -> (b: bool)
        ensures
            b == (self@.entries.len() == 0),
    {
        proof {
            use_type_invariant(self);
            let entries = self.body.entries@;
            if entries.len() > 0 {
                let n = entries.len() as int;
                assert(body_bytes(entries, self.seq, n).len() >= entry_bytes(
                    entries[n - 1],
                    self.seq,
                ).len());
            }
        }
        self.body.buf.len() == 0
    }

    /// Encodes `obj` now and appends the operation on it to the batch; the
    /// object itself is not kept. Fails, and leaves the batch as it was,
    /// when an attribute of the object is too long or its message is.
    pub fn add<T: NfNetlinkObject>(&mut self, obj: &T, msg_type: MsgType) -> (r: Result<
        (),
        BuilderError,
    >)
        ensures
            r is Ok <==> fields_fit(T::fields(obj@)) && message_fits(fields_wire(T::fields(obj@))),
            r is Ok ==> final(self)@ == (BatchModel {
                entries: old(self)@.entries.push(entry_of::<T>(obj@, msg_type)),
                ..old(self)@
            }),
            r is Err ==> final(self)@ == old(self)@,
            !fields_fit(T::fields(obj@)) ==> r == Err::<(), BuilderError>(
                BuilderError::AttributeTooLarge,
            ),
            fields_fit(T::fields(obj@)) && !message_fits(fields_wire(T::fields(obj@))) ==> r
                == Err::<(), BuilderError>(BuilderError::MessageTooLarge),
    {
        proof {
            use_type_invariant(&*self);
        }
        let mut msg: Vec<u8> = Vec::new();
        let r = add_or_remove(obj, &mut msg, msg_type, self.seq);
        if r.is_ok() {
            let ghost e = entry_of::<T>(obj@, msg_type);
            let ghost before = self.body.entries@;
            proof {
                let after = before.push(e);
                assert(msg@ =~= entry_bytes(e, self.seq));
                lemma_body_prefix(after, before, self.seq, before.len() as int);
            }
            let seq = self.seq;
            let mut taken = Batch::with_seq(seq);
            core::mem::swap(self, &mut taken);
            proof {
                use_type_invariant(&taken);
            }
            let Batch { body, seq: _ } = taken;
            let mut buf = body.buf;
            assert(buf@ == body_bytes(before, seq, before.len() as int));
            buf.extend_from_slice(msg.as_slice());
            proof {
                let after = before.push(e);
                let n = before.len() as int;
                assert(after[n] == e);
                assert(buf@ == body_bytes(before, seq, n) + entry_bytes(e, seq));
                assert(after.len() == n + 1);
                assert(body_bytes(after, seq, n + 1) == body_bytes(after, seq, n) + entry_bytes(
                    after[n],
                    seq,
                ));
            }
            *self = Batch { body: Body { buf, entries: Ghost(before.push(e)) }, seq };
        }
        r
    }

    /// Ends the batch: frames its operations by the two messages that begin
    /// and end a transaction, all under the batch's one sequence number. The
    /// batch is consumed, so it cannot be finalized twice.
    ///
    /// Fails exactly when the batch holds no operation.
    pub fn finalize(self) -> (r: Result<FinalizedBatch, BuilderError>)
        ensures
            r is Ok <==> self@.entries.len() > 0,
            r is Ok ==> r.unwrap()@ == batch_bytes(self@) && r.unwrap().seq() == self@.seq,
            r is Err ==> r == Err::<FinalizedBatch, BuilderError>(BuilderError::EmptyBatch),
    {
        proof {
            use_type_invariant(&self);
        }
        if self.is_empty() {
            return Err(BuilderError::EmptyBatch);
        }
        let g = NfGenMsg { family: 0, version: NFNETLINK_V0, res_id: NFNL_SUBSYS_NFTABLES as u16 };
        let mut out: Vec<u8> = Vec::new();
        write_header(&mut out, NFNL_MSG_BATCH_BEGIN, NLM_F_REQUEST, self.seq, g);
        out.extend_from_slice(self.body.buf.as_slice());
        write_header(&mut out, NFNL_MSG_BATCH_END, NLM_F_REQUEST, self.seq, g);
        proof {
            assert(out@ =~= batch_bytes(self@));
        }
        Ok(FinalizedBatch { bytes: out, seq: self.seq })
    }
}

/// The messages of the first `k` operations depend on those operations
/// alone.
pub proof fn lemma_body_prefix(a: Seq<BatchEntry>, b: Seq<BatchEntry>, seq: u32, k: int)
    requires
        0 <= k <= a.len(),
        k <= b.len(),
        forall|i: int| 0 <= i < k ==> a[i] == b[i],
    ensures
        body_bytes(a, seq, k) == body_bytes(b, seq, k),
    decreases k,
{
    if k > 0 {
        lemma_body_prefix(a, b, seq, k - 1);
    }
}

/// Where the message of the `k`-th operation starts, counted from the start
/// of the first operation's message.
pub open spec fn entry_start(entries: Seq<BatchEntry>, k: int) -> int
    decreases k,
{
    if k <= 0 || k > entries.len() {
        0
    } else {
        entry_start(entries, k - 1) + 20 + entries[k - 1].attrs.len()
    }
}

/// Whether byte `i` of a finalized batch belongs to the sequence number of
/// one of its messages: bytes 8 to 11 of the message that begins the batch,
/// of the message of an operation, or of the message that ends the batch.
pub open spec fn is_seq_byte(entries: Seq<BatchEntry>, i: int) -> bool {
    ||| 8 <= i < 12
    ||| exists|k: int|
        0 <= k <= entries.len() && 28 + #[trigger] entry_start(entries, k) <= i < 32 + entry_start(
            entries,
            k,
        )
}

/// Two messages that differ in their sequence numbers alone have the same
/// length and the same bytes, but for bytes 8 to 11.
pub proof fn lemma_message_seq(
    msg_type: u16,
    flags: u16,
    g: NfGenMsg,
    attrs: Seq<u8>,
    s1: u32,
    s2: u32,
)
    ensures
        message_bytes(msg_type, flags, s1, g, attrs).len() == 20 + attrs.len(),
        message_bytes(msg_type, flags, s2, g, attrs).len() == 20 + attrs.len(),
        forall|j: int|
            0 <= j < 20 + attrs.len() && !(8 <= j < 12) ==> message_bytes(
                msg_type,
                flags,
                s1,
                g,
                attrs,
            )[j] == message_bytes(msg_type, flags, s2, g, attrs)[j],
{
    let x = message_bytes(msg_type, flags, s1, g, attrs);
    let y = message_bytes(msg_type, flags, s2, g, attrs);
    let n = (20 + attrs.len()) as u32;
    let prefix = le32(n) + le16(msg_type) + le16(flags);
    let suffix = le32(0) + genmsg_bytes(g) + attrs;
    assert(x =~= prefix + le32(s1) + suffix);
    assert(y =~= prefix + le32(s2) + suffix);
    assert forall|j: int| 0 <= j < 20 + attrs.len() && !(8 <= j < 12) implies x[j] == y[j] by {
        if j < 8 {
            assert(x[j] == prefix[j]);
            assert(y[j] == prefix[j]);
        } else {
            assert(x[j] == suffix[j - 12]);
            assert(y[j] == suffix[j - 12]);
        }
    }
}

/// The messages of the first `k` operations of two batches that differ in
/// their sequence numbers alone have the same length and the same bytes,
/// but for the sequence numbers.
pub proof fn lemma_body_seq(entries: Seq<BatchEntry>, s1: u32, s2: u32, k: int)
    requires
        0 <= k <= entries.len(),
    ensures
        body_bytes(entries, s1, k).len() == entry_start(entries, k),
        body_bytes(entries, s2, k).len() == entry_start(entries, k),
        forall|i: int|
            0 <= i < entry_start(entries, k) && !is_seq_byte(entries, 20 + i) ==> body_bytes(
                entries,
                s1,
                k,
            )[i] == body_bytes(entries, s2, k)[i],
    decreases k,
{
    if k > 0 {
        lemma_body_seq(entries, s1, s2, k - 1);
        let e = entries[k - 1];
        let start = entry_start(entries, k - 1);
        let g = object_genmsg(e.family);
        lemma_message_seq(nft_msg_type(e.operation), e.flags, g, e.attrs, s1, s2);
        let x = body_bytes(entries, s1, k);
        let y = body_bytes(entries, s2, k);
        assert forall|i: int|
            0 <= i < entry_start(entries, k) && !is_seq_byte(entries, 20 + i) implies x[i]
            == y[i] by {
            if i >= start {
                let j = i - start;
                if 8 <= j < 12 {
                    assert(28 + entry_start(entries, k - 1) <= 20 + i < 32 + entry_start(
                        entries,
                        k - 1,
                    ));
                }
                assert(x[i] == entry_bytes(e, s1)[j]);
                assert(y[i] == entry_bytes(e, s2)[j]);
            } else {
                assert(x[i] == body_bytes(entries, s1, k - 1)[i]);
                assert(y[i] == body_bytes(entries, s2, k - 1)[i]);
            }
        }
    }
}

/// Two batches built from the same operations give the same bytes, but for
/// the sequence numbers of their messages: the two byte streams have the same
/// length, they are equal wherever no sequence number stands, and with the
/// same sequence number they are equal throughout.
pub proof fn lemma_batch_determinism(a: BatchModel, b: BatchModel)
    requires
        a.entries == b.entries,
    ensures
        batch_bytes(a).len() == batch_bytes(b).len(),
        a.seq == b.seq ==> batch_bytes(a) == batch_bytes(b),
        forall|i: int|
            0 <= i < batch_bytes(a).len() && !is_seq_byte(a.entries, i) ==> batch_bytes(a)[i]
                == batch_bytes(b)[i],
{
    let entries = a.entries;
    let n = entries.len() as int;
    let len = entry_start(entries, n);
    lemma_body_seq(entries, a.seq, b.seq, n);
    let g = frame_genmsg();
    lemma_message_seq(NFNL_MSG_BATCH_BEGIN, NLM_F_REQUEST, g, Seq::empty(), a.seq, b.seq);
    lemma_message_seq(NFNL_MSG_BATCH_END, NLM_F_REQUEST, g, Seq::empty(), a.seq, b.seq);
    let x = batch_bytes(a);
    let y = batch_bytes(b);
    assert(x.len() == 40 + len);
    assert forall|i: int| 0 <= i < x.len() && !is_seq_byte(entries, i) implies x[i] == y[i] by {
        if i < 20 {
            assert(x[i] == begin_bytes(a.seq)[i]);
            assert(y[i] == begin_bytes(b.seq)[i]);
        } else if i < 20 + len {
            assert(x[i] == body_bytes(entries, a.seq, n)[i - 20]);
            assert(y[i] == body_bytes(entries, b.seq, n)[i - 20]);
        } else {
            let j = i - 20 - len;
            if 8 <= j < 12 {
                assert(28 + entry_start(entries, n) <= i < 32 + entry_start(entries, n));
            }
            assert(x[i] == end_bytes(a.seq)[j]);
            assert(y[i] == end_bytes(b.seq)[j]);
        }
    }
}

} // verus!
