use rustables::expr::{Cmp, CmpOp, Counter, Immediate, VerdictKind};
use rustables::nlmsg::{add_or_remove, parse_nlmsg, NlMsg};
use rustables::sys::{
    NFNL_MSG_BATCH_BEGIN, NFNL_MSG_BATCH_END, NFNL_SUBSYS_NFTABLES, NLM_F_REQUEST,
};
use rustables::{Batch, BuilderError, Chain, MsgType, ProtocolFamily, Rule, Table};

fn test_table() -> Table {
    Table::new(ProtocolFamily::Inet).with_name("mocktable".to_string())
}

fn test_chain() -> Chain {
    Chain::new(&test_table()).with_name("mockchain".to_string())
}

fn test_rule() -> Rule {
    Rule::new(&test_chain())
        .unwrap()
        .with_expr(Cmp::new(CmpOp::Eq, vec![1, 2, 3]))
        .with_expr(Counter::new())
        .with_expr(Immediate::new_verdict(VerdictKind::Accept))
}

fn fill(batch: &mut Batch) {
    batch.add(&test_table(), MsgType::Add).unwrap();
    batch.add(&test_chain(), MsgType::Add).unwrap();
    batch.add(&test_rule(), MsgType::Add).unwrap();
    batch.add(&test_rule(), MsgType::Del).unwrap();
    batch.add(&test_table(), MsgType::Del).unwrap();
}

/// Splits a byte stream into its messages, by the lengths in their headers.
fn split(bytes: &[u8]) -> Vec<Vec<u8>> {
    let mut out = Vec::new();
    let mut pos = 0;
    while pos < bytes.len() {
        let len = u32::from_le_bytes([bytes[pos], bytes[pos + 1], bytes[pos + 2], bytes[pos + 3]])
            as usize;
        out.push(bytes[pos..pos + len].to_vec());
        pos += (len + 3) / 4 * 4;
    }
    out
}

#[test]
fn a_new_batch_is_empty_and_has_sequence_number_zero() {
    let batch = Batch::new();
    assert!(batch.is_empty());
    assert_eq!(batch.get_seq(), 0);
    let batch = Batch::with_seq(77);
    assert!(batch.is_empty());
    assert_eq!(batch.get_seq(), 77);
}

#[test]
fn an_empty_batch_cannot_be_finalized() {
    assert_eq!(Batch::new().finalize().err(), Some(BuilderError::EmptyBatch));
    assert_eq!(Batch::with_seq(5).finalize().err(), Some(BuilderError::EmptyBatch));
}

#[test]
fn a_batch_is_its_operations_between_two_frames() {
    let mut batch = Batch::with_seq(7);
    let table = Table::new(ProtocolFamily::Inet).with_name("t".to_string());
    batch.add(&table, MsgType::Add).unwrap();
    assert!(!batch.is_empty());
    let bytes = batch.finalize().unwrap().into_bytes();
    let expected: Vec<u8> = vec![
        // the message that begins the batch
        20, 0, 0, 0, 0x10, 0, 1, 0, 7, 0, 0, 0, 0, 0, 0, 0, 0, 0, 0, 10,
        // the creation of the table
        28, 0, 0, 0, 0x00, 0x0a, 0x05, 0x04, 7, 0, 0, 0, 0, 0, 0, 0, 1, 0, 0, 0,
        6, 0, 1, 0, b't', 0, 0, 0,
        // the message that ends the batch
        20, 0, 0, 0, 0x11, 0, 1, 0, 7, 0, 0, 0, 0, 0, 0, 0, 0, 0, 0, 10,
    ];
    assert_eq!(bytes, expected);
}

#[test]
fn the_frames_name_the_subsystem_and_share_the_sequence_number() {
    let mut batch = Batch::with_seq(0x0102_0304);
    fill(&mut batch);
    let bytes = batch.finalize().unwrap().into_bytes();
    let messages = split(&bytes);
    assert_eq!(messages.len(), 7);
    for (i, m) in messages.iter().enumerate() {
        let (hdr, msg) = parse_nlmsg(m, 0x0102_0304, 0).unwrap();
        assert_eq!(hdr.seq, 0x0102_0304);
        assert_eq!(hdr.len as usize, m.len());
        match msg {
            NlMsg::NfGenMsg(g, data) => {
                if i == 0 || i == 6 {
                    assert_eq!(g.res_id, NFNL_SUBSYS_NFTABLES as u16);
                    assert_eq!(g.family, 0);
                    assert_eq!(data.len(), 0);
                    assert_eq!(hdr.flags, NLM_F_REQUEST);
                } else {
                    assert_eq!(g.res_id, 0);
                    assert_eq!(g.family, ProtocolFamily::Inet.to_u8());
                }
            }
            _ => panic!("expected a data message"),
        }
    }
    let seq = 0x0102_0304;
    assert_eq!(parse_nlmsg(&messages[0], seq, 0).unwrap().0.msg_type, NFNL_MSG_BATCH_BEGIN);
    assert_eq!(parse_nlmsg(&messages[6], seq, 0).unwrap().0.msg_type, NFNL_MSG_BATCH_END);
    assert!(parse_nlmsg(&messages[0], 0, 0).is_err());
    assert!(parse_nlmsg(&messages[3], seq + 1, 0).is_err());
    assert!(parse_nlmsg(&messages[3], seq, 1).is_err());
}

#[test]
fn the_operations_stand_in_the_order_in_which_they_were_added() {
    let mut batch = Batch::with_seq(3);
    fill(&mut batch);
    let bytes = batch.finalize().unwrap().into_bytes();
    let messages = split(&bytes);
    let mut expected = Vec::new();
    let mut one = Vec::new();
    add_or_remove(&test_table(), &mut one, MsgType::Add, 3).unwrap();
    expected.push(one);
    let mut one = Vec::new();
    add_or_remove(&test_chain(), &mut one, MsgType::Add, 3).unwrap();
    expected.push(one);
    let mut one = Vec::new();
    add_or_remove(&test_rule(), &mut one, MsgType::Add, 3).unwrap();
    expected.push(one);
    let mut one = Vec::new();
    add_or_remove(&test_rule(), &mut one, MsgType::Del, 3).unwrap();
    expected.push(one);
    let mut one = Vec::new();
    add_or_remove(&test_table(), &mut one, MsgType::Del, 3).unwrap();
    expected.push(one);
    assert_eq!(messages[1..6].to_vec(), expected);
}

#[test]
fn two_batches_of_the_same_operations_are_the_same_bytes() {
    let mut a = Batch::with_seq(9);
    fill(&mut a);
    let mut b = Batch::with_seq(9);
    fill(&mut b);
    assert_eq!(a.finalize().unwrap().as_bytes(), b.finalize().unwrap().as_bytes());
}

#[test]
fn two_batches_differ_in_their_sequence_numbers_alone() {
    let mut a = Batch::with_seq(1);
    fill(&mut a);
    let mut b = Batch::with_seq(0xfeed_beef);
    fill(&mut b);
    let a = a.finalize().unwrap().into_bytes();
    let b = b.finalize().unwrap().into_bytes();
    assert_eq!(a.len(), b.len());
    assert_ne!(a, b);
    let mut starts = Vec::new();
    let mut pos = 0;
    for m in split(&a) {
        starts.push(pos);
        pos += m.len();
    }
    for i in 0..a.len() {
        let in_seq_field = starts.iter().any(|s| s + 8 <= i && i < s + 12);
        if !in_seq_field {
            assert_eq!(a[i], b[i]);
        }
    }
    let mut patched = a.clone();
    for s in starts {
        patched[s + 8..s + 12].copy_from_slice(&0xfeed_beefu32.to_le_bytes());
    }
    assert_eq!(patched, b);
}

#[test]
fn an_object_that_cannot_be_encoded_leaves_the_batch_as_it_was() {
    let mut a = Batch::with_seq(2);
    a.add(&test_table(), MsgType::Add).unwrap();
    let too_long = Rule::default().with_userdata(vec![0; 65532]);
    assert_eq!(a.add(&too_long, MsgType::Add), Err(BuilderError::AttributeTooLarge));
    a.add(&test_chain(), MsgType::Add).unwrap();
    let mut b = Batch::with_seq(2);
    b.add(&test_table(), MsgType::Add).unwrap();
    b.add(&test_chain(), MsgType::Add).unwrap();
    assert_eq!(a.finalize().unwrap().as_bytes(), b.finalize().unwrap().as_bytes());
}

#[test]
fn an_object_is_encoded_when_it_is_added() {
    let mut batch = Batch::with_seq(2);
    let mut table = Table::new(ProtocolFamily::Inet).with_name("before".to_string());
    batch.add(&table, MsgType::Add).unwrap();
    table.set_name("after".to_string());
    let bytes = batch.finalize().unwrap().into_bytes();
    let mut expected = Batch::with_seq(2);
    expected
        .add(&Table::new(ProtocolFamily::Inet).with_name("before".to_string()), MsgType::Add)
        .unwrap();
    assert_eq!(bytes, expected.finalize().unwrap().into_bytes());
}

#[test]
fn a_finalized_batch_knows_its_sequence_number() {
    let mut batch = Batch::with_seq(0xdead_beef);
    fill(&mut batch);
    let finalized = batch.finalize().unwrap();
    assert_eq!(finalized.get_seq(), 0xdead_beef);
    for m in split(finalized.as_bytes()) {
        assert_eq!(parse_nlmsg(&m, finalized.get_seq(), 0).unwrap().0.seq, 0xdead_beef);
    }
    let mut batch = Batch::new();
    fill(&mut batch);
    assert_eq!(batch.finalize().unwrap().get_seq(), 0);
}
