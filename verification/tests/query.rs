use rustables::expr::{Cmp, CmpOp, Counter, Immediate, VerdictKind};
use rustables::nlmsg::{
    add_or_remove, parse_nlmsg, NfGenMsg, NfNetlinkObject, NlMsg, NlMsgErr, NlMsgHeader,
};
use rustables::query::{
    check_sent, collect, demux, get_list_of_objects, process_acks, recv_and_process, Error,
    Outcome, QueryAction, QueryEvent, QuerySession, QueryState,
};
use rustables::chain::chains_query_for_table;
use rustables::rule::rules_query_for_chain;
use rustables::set::sets_query_for_table;
use rustables::table::tables_query;
use rustables::schema::serialize;
use rustables::sys::{
    NFNETLINK_V0, NFNL_SUBSYS_NFTABLES, NFT_MSG_GETCHAIN, NFT_MSG_GETRULE, NFT_MSG_GETSET,
    NFT_MSG_GETSETELEM, NFT_MSG_GETTABLE, NFT_MSG_NEWRULE, NFT_MSG_NEWTABLE, NLMSG_DONE,
    NLMSG_ERROR, NLMSG_NOOP,
    NLM_F_DUMP_INTR, NLM_F_MATCH, NLM_F_REQUEST, NLM_F_ROOT,
};
use rustables::{
    BuilderError, Chain, DecodeError, MsgType, NftSet, ProtocolFamily, Rule, SetElementList,
    Table,
};

const EEXIST: i32 = 17;

fn test_chain() -> Chain {
    let table = Table::new(ProtocolFamily::Inet).with_name("mocktable".to_string());
    Chain::new(&table).with_name("mockchain".to_string())
}

fn rule(n: u64) -> Rule {
    Rule::new(&test_chain())
        .unwrap()
        .with_handle(n)
        .with_expr(Cmp::new(CmpOp::Eq, vec![n as u8]))
        .with_expr(Immediate::new_verdict(VerdictKind::Accept))
}

/// A message as the kernel sends it: the header with the computed length,
/// what follows it, and the padding.
fn kernel_msg(msg_type: u16, flags: u16, seq: u32, pid: u32, body: &[u8]) -> Vec<u8> {
    let mut m = Vec::new();
    m.extend(((16 + body.len()) as u32).to_le_bytes());
    m.extend(msg_type.to_le_bytes());
    m.extend(flags.to_le_bytes());
    m.extend(seq.to_le_bytes());
    m.extend(pid.to_le_bytes());
    m.extend(body);
    while m.len() % 4 != 0 {
        m.push(0);
    }
    m
}

fn data_msg(op: u8, family: ProtocolFamily, seq: u32, pid: u32, attrs: &[u8]) -> Vec<u8> {
    let mut body = vec![family.to_u8(), NFNETLINK_V0, 0, 0];
    body.extend(attrs);
    kernel_msg((NFNL_SUBSYS_NFTABLES as u16) << 8 | op as u16, 2, seq, pid, &body)
}

fn rule_msg(r: &Rule, seq: u32, pid: u32) -> Vec<u8> {
    data_msg(NFT_MSG_NEWRULE, r.family, seq, pid, &serialize(r).unwrap())
}

fn done_msg(seq: u32, pid: u32) -> Vec<u8> {
    kernel_msg(NLMSG_DONE, 2, seq, pid, &0i32.to_le_bytes())
}

fn noop_msg(seq: u32, pid: u32) -> Vec<u8> {
    kernel_msg(NLMSG_NOOP, 0, seq, pid, &[])
}

fn error_msg(errno: i32, seq: u32, pid: u32) -> Vec<u8> {
    let mut body = Vec::new();
    body.extend(errno.to_le_bytes());
    body.extend(kernel_msg(0x0a06, 5, seq, 0, &[])[0..16].to_vec());
    kernel_msg(NLMSG_ERROR, 0, seq, pid, &body)
}

fn error_record(error: i32, seq: u32) -> NlMsgErr {
    NlMsgErr { error, msg: NlMsgHeader { len: 16, msg_type: 0x0a06, flags: 5, seq, pid: 0 } }
}

#[test]
fn a_dump_request_asks_for_every_object_of_a_kind() {
    let request = get_list_of_objects::<Table>(NFT_MSG_GETTABLE, 5, None).unwrap();
    assert_eq!(
        request,
        vec![20, 0, 0, 0, 0x01, 0x0a, 0x01, 0x03, 5, 0, 0, 0, 0, 0, 0, 0, 0, 0, 0, 0]
    );
    let (hdr, msg) = parse_nlmsg(&request, 5, 0).unwrap();
    assert_eq!(hdr.flags, NLM_F_REQUEST | NLM_F_ROOT | NLM_F_MATCH);
    assert_eq!(hdr.msg_type, (NFNL_SUBSYS_NFTABLES as u16) << 8 | NFT_MSG_GETTABLE as u16);
    assert_eq!(
        msg,
        NlMsg::NfGenMsg(NfGenMsg { family: 0, version: 0, res_id: 0 }, &[])
    );
}

#[test]
fn a_dump_request_carries_its_filter() {
    let filter = Rule::new(&test_chain()).unwrap();
    let request = get_list_of_objects(NFT_MSG_GETRULE, 1, Some(&filter)).unwrap();
    let (hdr, msg) = parse_nlmsg(&request, 1, 0).unwrap();
    assert_eq!(hdr.len as usize, request.len());
    assert_eq!(hdr.len, 52);
    assert_eq!(hdr.flags, NLM_F_REQUEST | NLM_F_ROOT | NLM_F_MATCH);
    match msg {
        NlMsg::NfGenMsg(g, data) => {
            assert_eq!(g.family, 0);
            assert_eq!(data.to_vec(), serialize(&filter).unwrap());
        }
        _ => panic!("expected a data message"),
    }
}

#[test]
fn a_filter_that_cannot_be_encoded_fails_the_request() {
    let filter = Rule::default().with_userdata(vec![0; 65532]);
    assert_eq!(
        get_list_of_objects(NFT_MSG_GETRULE, 1, Some(&filter)),
        Err(Error::InitError(BuilderError::AttributeTooLarge))
    );
}

#[test]
fn three_data_messages_and_done_fire_three_times_in_order() {
    let rules = [rule(1), rule(2), rule(3)];
    let mut buf = Vec::new();
    for r in &rules {
        buf.extend(rule_msg(r, 0, 1234));
    }
    buf.extend(done_msg(0, 1234));

    let (messages, outcome) = demux(&buf, 0, 1234);
    assert_eq!(outcome, Outcome::Done);
    assert_eq!(messages.len(), 3);
    for (m, r) in messages.iter().zip(&rules) {
        assert_eq!(m.data.to_vec(), serialize(r).unwrap());
        assert_eq!(m.genmsg.family, ProtocolFamily::Inet.to_u8());
        assert_eq!(m.header.pid, 1234);
    }

    let mut got: Vec<Rule> = Vec::new();
    assert_eq!(recv_and_process(&buf, &mut got, 0, 1234), Ok(true));
    assert_eq!(got, rules.to_vec());
}

#[test]
fn objects_are_appended_to_those_gathered_before() {
    let mut got = vec![rule(9)];
    let mut buf = rule_msg(&rule(1), 4, 0);
    buf.extend(rule_msg(&rule(2), 4, 0));
    assert_eq!(recv_and_process(&buf, &mut got, 4, 0), Ok(false));
    assert_eq!(got, vec![rule(9), rule(1), rule(2)]);
    let mut buf = rule_msg(&rule(2), 4, 0);
    buf.extend(done_msg(4, 0));
    assert_eq!(recv_and_process(&buf, &mut got, 4, 0), Ok(true));
    assert_eq!(got, vec![rule(9), rule(1), rule(2), rule(2)]);
}

#[test]
fn what_stands_after_done_is_not_read() {
    let mut buf = rule_msg(&rule(1), 0, 0);
    buf.extend(done_msg(0, 0));
    buf.extend(rule_msg(&rule(2), 0, 0));
    buf.extend([1, 2, 3]);
    let mut got: Vec<Rule> = Vec::new();
    assert_eq!(recv_and_process(&buf, &mut got, 0, 0), Ok(true));
    assert_eq!(got, vec![rule(1)]);
}

#[test]
fn an_error_from_the_kernel_ends_the_query_with_its_number() {
    let mut buf = rule_msg(&rule(1), 8, 0);
    buf.extend(error_msg(-EEXIST, 8, 0));
    buf.extend(rule_msg(&rule(2), 8, 0));
    let mut got: Vec<Rule> = Vec::new();
    let r = recv_and_process(&buf, &mut got, 8, 0);
    assert_eq!(r, Err(Error::NetlinkError(error_record(-17, 8))));
    match r {
        Err(Error::NetlinkError(e)) => {
            assert_eq!(e.errno(), 17);
            assert_eq!(e.error, -EEXIST);
        }
        _ => panic!("expected the kernel's error"),
    }
    assert_eq!(got, vec![rule(1)]);
    assert_eq!(process_acks(&buf, 8, 0), Err(Error::NetlinkError(error_record(-17, 8))));
}

#[test]
fn the_error_record_is_kept_as_the_kernel_wrote_it() {
    for (written, number) in [
        (EEXIST, 17u32),
        (-EEXIST, 17),
        (-1, 1),
        (1, 1),
        (i32::MAX, 0x7fff_ffff),
        (i32::MIN + 1, 0x7fff_ffff),
        (i32::MIN, 0x8000_0000),
    ] {
        let r = process_acks(&error_msg(written, 0, 0), 0, 0);
        assert_eq!(r, Err(Error::NetlinkError(error_record(written, 0))));
        assert_eq!(error_record(written, 0).errno(), number);
    }
    assert_eq!(error_record(0, 0).errno(), 0);
}

#[test]
fn an_acknowledgement_and_a_noop_are_passed_over() {
    let mut buf = error_msg(0, 3, 0);
    buf.extend(noop_msg(3, 0));
    buf.extend(rule_msg(&rule(5), 3, 0));
    buf.extend(error_msg(0, 3, 0));
    let mut got: Vec<Rule> = Vec::new();
    assert_eq!(recv_and_process(&buf, &mut got, 3, 0), Ok(false));
    assert_eq!(got, vec![rule(5)]);
    assert_eq!(process_acks(&buf, 3, 0), Ok(false));
    buf.extend(done_msg(3, 0));
    assert_eq!(process_acks(&buf, 3, 0), Ok(true));
    assert_eq!(process_acks(&[], 3, 0), Ok(false));
}

#[test]
fn a_message_of_another_session_is_refused() {
    let buf = rule_msg(&rule(1), 5, 77);
    let mut got: Vec<Rule> = Vec::new();
    assert_eq!(
        recv_and_process(&buf, &mut got, 6, 77),
        Err(Error::ProcessNetlinkError(DecodeError::BadSequenceNumber(5)))
    );
    assert_eq!(
        recv_and_process(&buf, &mut got, 5, 78),
        Err(Error::ProcessNetlinkError(DecodeError::BadPortId(77)))
    );
    assert_eq!(
        recv_and_process(&buf, &mut got, 0, 77),
        Err(Error::ProcessNetlinkError(DecodeError::BadSequenceNumber(5)))
    );
    assert_eq!(
        recv_and_process(&buf, &mut got, 5, 0),
        Err(Error::ProcessNetlinkError(DecodeError::BadPortId(77)))
    );
    assert_eq!(
        recv_and_process(&rule_msg(&rule(1), 0, 0), &mut got, 5, 77),
        Err(Error::ProcessNetlinkError(DecodeError::BadSequenceNumber(0)))
    );
    assert_eq!(
        recv_and_process(&rule_msg(&rule(1), 5, 0), &mut got, 5, 77),
        Err(Error::ProcessNetlinkError(DecodeError::BadPortId(0)))
    );
    assert_eq!(got, vec![]);
    assert_eq!(recv_and_process(&buf, &mut got, 5, 77), Ok(false));
    assert_eq!(got, vec![rule(1)]);
}

#[test]
fn a_cut_message_is_refused() {
    let buf = rule_msg(&rule(1), 0, 0);
    let mut got: Vec<Rule> = Vec::new();
    assert_eq!(
        recv_and_process(&buf[..buf.len() - 1], &mut got, 0, 0),
        Err(Error::ProcessNetlinkError(DecodeError::NlMsgTooSmall))
    );
    assert_eq!(
        recv_and_process(&buf[..10], &mut got, 0, 0),
        Err(Error::ProcessNetlinkError(DecodeError::NlMsgTooSmall))
    );
    assert_eq!(
        process_acks(&error_msg(-17, 0, 0)[..32], 0, 0),
        Err(Error::ProcessNetlinkError(DecodeError::NlMsgTooSmall))
    );
    let mut short = kernel_msg(NLMSG_ERROR, 0, 0, 0, &[0, 0, 0, 0]);
    assert_eq!(
        process_acks(&short, 0, 0),
        Err(Error::ProcessNetlinkError(DecodeError::NlMsgTooSmall))
    );
    short[0] = 15;
    assert_eq!(
        process_acks(&short, 0, 0),
        Err(Error::ProcessNetlinkError(DecodeError::NlMsgTooSmall))
    );
}

#[test]
fn a_message_without_its_padding_is_refused() {
    let mut buf = kernel_msg(NLMSG_NOOP, 0, 0, 0, &[1]);
    assert_eq!(buf.len(), 20);
    assert_eq!(process_acks(&buf, 0, 0), Ok(false));
    buf.truncate(18);
    assert_eq!(
        process_acks(&buf, 0, 0),
        Err(Error::ProcessNetlinkError(DecodeError::MissingPadding))
    );
}

#[test]
fn a_message_that_is_not_for_this_library_is_refused() {
    assert_eq!(
        process_acks(&kernel_msg(4, 0, 0, 0, &[]), 0, 0),
        Err(Error::ProcessNetlinkError(DecodeError::UnsupportedType(4)))
    );
    assert_eq!(
        process_acks(&kernel_msg(0x0b06, 0, 0, 0, &[2, 0, 0, 0]), 0, 0),
        Err(Error::ProcessNetlinkError(DecodeError::InvalidSubsystem(0x0b)))
    );
    assert_eq!(
        process_acks(&kernel_msg(0x0a06, 0, 0, 0, &[2, 1, 0, 0]), 0, 0),
        Err(Error::ProcessNetlinkError(DecodeError::InvalidVersion(1)))
    );
    assert_eq!(
        process_acks(&kernel_msg(0x0a06, 0, 0, 0, &[]), 0, 0),
        Err(Error::ProcessNetlinkError(DecodeError::NlMsgTooSmall))
    );
}

#[test]
fn an_object_that_cannot_be_decoded_fails_the_query() {
    let mut buf = rule_msg(&rule(1), 0, 0);
    buf.extend(data_msg(NFT_MSG_NEWRULE, ProtocolFamily::Inet, 0, 0, &[5, 0, 3, 0, 1, 0, 0, 0]));
    buf.extend(error_msg(-17, 0, 0));
    let mut got: Vec<Rule> = Vec::new();
    assert_eq!(
        recv_and_process(&buf, &mut got, 0, 0),
        Err(Error::ProcessNetlinkError(DecodeError::InvalidDataSize))
    );
    assert_eq!(got, vec![rule(1)]);
    let (messages, outcome) = demux(&buf, 0, 0);
    assert_eq!(messages.len(), 2);
    assert_eq!(outcome, Outcome::Failed(Error::NetlinkError(error_record(-17, 0))));
    let mut got: Vec<Rule> = Vec::new();
    assert_eq!(collect(&messages, &mut got), Err(DecodeError::InvalidDataSize));
}

#[test]
fn an_object_of_an_unknown_family_fails_the_query() {
    let mut body = vec![99u8, NFNETLINK_V0, 0, 0];
    body.extend(serialize(&rule(1)).unwrap());
    let buf = kernel_msg(0x0a06, 0, 0, 0, &body);
    let mut got: Vec<Rule> = Vec::new();
    assert_eq!(
        recv_and_process(&buf, &mut got, 0, 0),
        Err(Error::ProcessNetlinkError(DecodeError::UnknownDiscriminant(99)))
    );
}

#[test]
fn a_message_of_this_library_is_read_as_the_kernel_would_send_it() {
    let r = rule(4);
    let mut ours = Vec::new();
    add_or_remove(&r, &mut ours, MsgType::Add, 6).unwrap();
    let mut got: Vec<Rule> = Vec::new();
    assert_eq!(recv_and_process(&ours, &mut got, 6, 0), Ok(false));
    assert_eq!(got, vec![r]);
}

#[test]
fn tables_are_gathered_like_rules() {
    let t1 = Table::new(ProtocolFamily::Ipv4).with_name("a".to_string()).with_handle(1);
    let t2 = Table::new(ProtocolFamily::Ipv6).with_name("b".to_string()).with_handle(2);
    let mut buf = data_msg(NFT_MSG_NEWTABLE, t1.family, 0, 0, &serialize(&t1).unwrap());
    buf.extend(data_msg(NFT_MSG_NEWTABLE, t2.family, 0, 0, &serialize(&t2).unwrap()));
    buf.extend(done_msg(0, 0));
    let mut got: Vec<Table> = Vec::new();
    assert_eq!(recv_and_process(&buf, &mut got, 0, 0), Ok(true));
    assert_eq!(got, vec![t1, t2]);
}

#[test]
fn a_batch_must_go_out_as_a_whole() {
    assert_eq!(check_sent(10, 10), Ok(()));
    assert_eq!(check_sent(11, 10), Ok(()));
    assert_eq!(check_sent(9, 10), Err(Error::TruncatedSend));
    assert_eq!(check_sent(0, 0), Ok(()));
}

#[test]
fn a_query_runs_from_its_request_to_done() {
    let mut q = rules_query_for_chain(&test_chain(), 3, 0).unwrap();
    assert_eq!(q.get_state(), QueryState::Idle);
    let filter = Rule::new(&test_chain()).unwrap();
    assert_eq!(
        q.get_request().to_vec(),
        get_list_of_objects(NFT_MSG_GETRULE, 3, Some(&filter)).unwrap()
    );
    assert_eq!(q.step(QueryEvent::Start), QueryAction::Send);
    assert_eq!(q.get_state(), QueryState::RequestSent);
    assert_eq!(q.step(QueryEvent::Sent), QueryAction::Receive);
    assert_eq!(q.get_state(), QueryState::Receiving);

    let mut first = rule_msg(&rule(1), 3, 0);
    first.extend(rule_msg(&rule(2), 3, 0));
    assert_eq!(q.step(QueryEvent::Received(&first)), QueryAction::Receive);
    assert_eq!(q.get_state(), QueryState::Receiving);
    assert_eq!(q.get_objects(), &vec![rule(1), rule(2)]);

    let mut second = rule_msg(&rule(3), 3, 0);
    second.extend(done_msg(3, 0));
    assert_eq!(q.step(QueryEvent::Received(&second)), QueryAction::Finish);
    assert_eq!(q.get_state(), QueryState::Done);
    assert_eq!(q.step(QueryEvent::Received(&first)), QueryAction::Finish);
    assert_eq!(q.step(QueryEvent::Start), QueryAction::Finish);
    assert_eq!(q.into_objects(), vec![rule(1), rule(2), rule(3)]);
}

#[test]
fn a_query_ends_when_nothing_more_comes() {
    let mut q: QuerySession<Rule> = QuerySession::new(NFT_MSG_GETRULE, None, 0, 0).unwrap();
    assert_eq!(q.step(QueryEvent::Start), QueryAction::Send);
    assert_eq!(q.step(QueryEvent::Sent), QueryAction::Receive);
    assert_eq!(q.step(QueryEvent::Received(&rule_msg(&rule(1), 0, 0))), QueryAction::Receive);
    assert_eq!(q.step(QueryEvent::Received(&[])), QueryAction::Finish);
    assert_eq!(q.get_state(), QueryState::Done);
    assert_eq!(q.into_objects(), vec![rule(1)]);
}

#[test]
fn a_query_fails_with_the_error_of_the_kernel() {
    let mut q: QuerySession<Rule> = QuerySession::new(NFT_MSG_GETRULE, None, 2, 0).unwrap();
    q.step(QueryEvent::Start);
    q.step(QueryEvent::Sent);
    let e = Error::NetlinkError(error_record(-17, 2));
    assert_eq!(q.step(QueryEvent::Received(&error_msg(-EEXIST, 2, 0))), QueryAction::Fail(e));
    assert_eq!(q.get_state(), QueryState::Errored(e));
    assert_eq!(q.step(QueryEvent::Received(&done_msg(2, 0))), QueryAction::Fail(e));
    assert_eq!(q.get_state(), QueryState::Errored(e));
}

#[test]
fn a_query_fails_with_the_error_of_the_socket() {
    let mut q: QuerySession<Rule> = QuerySession::new(NFT_MSG_GETRULE, None, 0, 0).unwrap();
    q.step(QueryEvent::Start);
    assert_eq!(
        q.step(QueryEvent::SendFailed(32)),
        QueryAction::Fail(Error::NetlinkSendError(32))
    );
    assert_eq!(q.get_state(), QueryState::Errored(Error::NetlinkSendError(32)));

    let mut q: QuerySession<Rule> = QuerySession::new(NFT_MSG_GETRULE, None, 0, 0).unwrap();
    q.step(QueryEvent::Start);
    q.step(QueryEvent::Sent);
    assert_eq!(
        q.step(QueryEvent::ReceiveFailed(4)),
        QueryAction::Fail(Error::NetlinkRecvError(4))
    );
    assert_eq!(q.get_state(), QueryState::Errored(Error::NetlinkRecvError(4)));
}

#[test]
fn a_query_fails_on_what_it_has_not_asked_for() {
    let fail = QueryAction::Fail(Error::UnexpectedEvent);
    let mut q: QuerySession<Rule> = QuerySession::new(NFT_MSG_GETRULE, None, 0, 0).unwrap();
    assert_eq!(q.step(QueryEvent::Sent), fail);
    let mut q: QuerySession<Rule> = QuerySession::new(NFT_MSG_GETRULE, None, 0, 0).unwrap();
    assert_eq!(q.step(QueryEvent::Received(&[])), fail);
    let mut q: QuerySession<Rule> = QuerySession::new(NFT_MSG_GETRULE, None, 0, 0).unwrap();
    q.step(QueryEvent::Start);
    assert_eq!(q.step(QueryEvent::Start), fail);
    let mut q: QuerySession<Rule> = QuerySession::new(NFT_MSG_GETRULE, None, 0, 0).unwrap();
    q.step(QueryEvent::Start);
    assert_eq!(q.step(QueryEvent::ReceiveFailed(1)), fail);
    let mut q: QuerySession<Rule> = QuerySession::new(NFT_MSG_GETRULE, None, 0, 0).unwrap();
    q.step(QueryEvent::Start);
    q.step(QueryEvent::Sent);
    assert_eq!(q.step(QueryEvent::Sent), fail);
    assert_eq!(q.get_state(), QueryState::Errored(Error::UnexpectedEvent));
}

#[test]
fn a_query_for_a_chain_without_a_name_cannot_be_made() {
    let table = Table::new(ProtocolFamily::Inet).with_name("mocktable".to_string());
    let nameless = Chain::new(&table);
    assert_eq!(
        rules_query_for_chain(&nameless, 0, 0).err(),
        Some(Error::InitError(BuilderError::MissingChainInformationError))
    );
}

#[test]
fn counters_of_a_rule_from_the_kernel_are_read() {
    let r = Rule::new(&test_chain())
        .unwrap()
        .with_handle(2)
        .with_expr(Counter::new().with_nb_bytes(1500).with_nb_packets(3));
    let mut buf = rule_msg(&r, 0, 0);
    buf.extend(done_msg(0, 0));
    let mut got: Vec<Rule> = Vec::new();
    assert_eq!(recv_and_process(&buf, &mut got, 0, 0), Ok(true));
    assert_eq!(got, vec![r]);
}

#[test]
fn the_listers_of_the_other_kinds_ask_with_their_own_filters() {
    let q = tables_query(4, 9);
    assert_eq!(
        q.get_request().to_vec(),
        get_list_of_objects::<Table>(NFT_MSG_GETTABLE, 4, None).unwrap()
    );
    assert_eq!(q.get_state(), QueryState::Idle);

    let table = Table::new(ProtocolFamily::Ipv4).with_name("filter".to_string());
    let q = chains_query_for_table(&table, 4, 9).unwrap();
    let filter = Chain::new(&table);
    assert_eq!(filter.table, Some("filter".to_string()));
    assert_eq!(filter.family, ProtocolFamily::Ipv4);
    assert_eq!(
        q.get_request().to_vec(),
        get_list_of_objects(NFT_MSG_GETCHAIN, 4, Some(&filter)).unwrap()
    );

    let q = sets_query_for_table(&table, 4, 9).unwrap();
    assert_eq!(
        q.get_request().to_vec(),
        get_list_of_objects(NFT_MSG_GETSET, 4, Some(&NftSet::new(&table))).unwrap()
    );

    let long = Table::new(ProtocolFamily::Ipv4).with_name("x".repeat(70000));
    assert_eq!(
        chains_query_for_table(&long, 0, 0).err(),
        Some(Error::InitError(BuilderError::AttributeTooLarge))
    );
    assert_eq!(
        sets_query_for_table(&long, 0, 0).err(),
        Some(Error::InitError(BuilderError::AttributeTooLarge))
    );
}

#[test]
fn an_interrupted_dump_is_told_by_the_header() {
    let plain = rule_msg(&rule(1), 0, 0);
    let (h, _) = parse_nlmsg(&plain, 0, 0).unwrap();
    assert!(!h.dump_interrupted());
    let body = &plain[16..];
    let marked = kernel_msg(0x0a06, 2 | NLM_F_DUMP_INTR, 0, 0, body);
    let (h, _) = parse_nlmsg(&marked, 0, 0).unwrap();
    assert!(h.dump_interrupted());
    let (messages, outcome) = demux(&marked, 0, 0);
    assert_eq!(outcome, Outcome::More);
    assert!(messages[0].header.dump_interrupted());
}

#[test]
fn a_query_for_a_kind_asks_for_the_listing_of_that_kind() {
    assert_eq!(Table::get_msg_type_get(), NFT_MSG_GETTABLE);
    assert_eq!(Chain::get_msg_type_get(), NFT_MSG_GETCHAIN);
    assert_eq!(Rule::get_msg_type_get(), NFT_MSG_GETRULE);
    assert_eq!(NftSet::get_msg_type_get(), NFT_MSG_GETSET);
    assert_eq!(SetElementList::get_msg_type_get(), NFT_MSG_GETSETELEM);
    let q: QuerySession<Rule> = QuerySession::list(None, 11, 0).unwrap();
    assert_eq!(
        q.get_request().to_vec(),
        get_list_of_objects::<Rule>(NFT_MSG_GETRULE, 11, None).unwrap()
    );
    let filter = Rule::new(&test_chain()).unwrap();
    let q = QuerySession::list(Some(&filter), 11, 0).unwrap();
    assert_eq!(
        q.get_request().to_vec(),
        rules_query_for_chain(&test_chain(), 11, 0).unwrap().get_request().to_vec()
    );
}

#[test]
fn a_session_takes_the_answers_to_its_own_request_alone() {
    let mut q: QuerySession<Rule> = QuerySession::list(None, 42, 4321).unwrap();
    assert_eq!(q.step(QueryEvent::Start), QueryAction::Send);
    assert_eq!(q.step(QueryEvent::Sent), QueryAction::Receive);
    let mut buf = rule_msg(&rule(1), 42, 4321);
    buf.extend(rule_msg(&rule(2), 42, 4321));
    assert_eq!(q.step(QueryEvent::Received(&buf)), QueryAction::Receive);
    let mut foreign = rule_msg(&rule(3), 42, 4321);
    foreign.extend(rule_msg(&rule(4), 41, 4321));
    foreign.extend(done_msg(42, 4321));
    let e = Error::ProcessNetlinkError(DecodeError::BadSequenceNumber(41));
    assert_eq!(q.step(QueryEvent::Received(&foreign)), QueryAction::Fail(e));
    assert_eq!(q.get_state(), QueryState::Errored(e));
    assert_eq!(q.into_objects(), vec![rule(1), rule(2), rule(3)]);

    let mut q: QuerySession<Rule> = QuerySession::list(None, 42, 4321).unwrap();
    q.step(QueryEvent::Start);
    q.step(QueryEvent::Sent);
    let e = Error::ProcessNetlinkError(DecodeError::BadPortId(0));
    assert_eq!(
        q.step(QueryEvent::Received(&rule_msg(&rule(1), 42, 0))),
        QueryAction::Fail(e)
    );
    assert_eq!(q.into_objects(), vec![]);

    let mut q: QuerySession<Rule> = QuerySession::list(None, 0, 0).unwrap();
    q.step(QueryEvent::Start);
    q.step(QueryEvent::Sent);
    let e = Error::ProcessNetlinkError(DecodeError::BadPortId(4321));
    assert_eq!(
        q.step(QueryEvent::Received(&rule_msg(&rule(1), 0, 4321))),
        QueryAction::Fail(e)
    );
    let mut q: QuerySession<Rule> = QuerySession::list(None, 0, 0).unwrap();
    q.step(QueryEvent::Start);
    q.step(QueryEvent::Sent);
    let e = Error::ProcessNetlinkError(DecodeError::BadSequenceNumber(7));
    assert_eq!(
        q.step(QueryEvent::Received(&rule_msg(&rule(1), 7, 0))),
        QueryAction::Fail(e)
    );
}
