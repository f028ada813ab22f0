use rustables::attr::write_attribute;
use rustables::data::{NfNetlinkData, VerdictAttribute, VerdictType};
use rustables::expr::{
    Bitwise, Cmp, CmpOp, Conntrack, ConntrackKey, Counter, ExpressionData, ExpressionKind,
    ExpressionList, IcmpCode, Immediate, Log, Lookup, Masquerade, Meta, MetaType, Nat, NatType,
    Payload, PayloadBase, Range, RawExpression, Register, Reject, RejectType, VerdictKind,
};
use rustables::nlmsg::{add_or_remove, decode_object, parse_nlmsg, NlMsg};
use rustables::schema::{deserialize, serialize, NfNetlinkAttribute};
use rustables::sys::{
    NFTA_CMP_OP, NFTA_CMP_SREG, NFTA_COUNTER_BYTES, NFTA_COUNTER_PACKETS, NFTA_EXPR_DATA,
    NFTA_EXPR_NAME, NFTA_LOG_PREFIX, NFTA_REJECT_ICMP_CODE, NFTA_RULE_HANDLE, NFTA_RULE_TABLE,
    NLA_F_NESTED,
};
use rustables::{
    BuilderError, Chain, ChainPolicy, DecodeError, Hook, HookClass, MsgType, NftSet,
    ProtocolFamily, Rule, SetElementList, Table,
};

fn roundtrip<T: NfNetlinkAttribute + PartialEq + std::fmt::Debug>(obj: T) {
    let bytes = serialize(&obj).expect("the object cannot be encoded");
    assert_eq!(bytes.len() % 4, 0);
    let back: T = deserialize(&bytes).expect("the encoding cannot be decoded");
    assert_eq!(back, obj);
}

fn test_chain() -> Chain {
    let table = Table::new(ProtocolFamily::Inet).with_name("mocktable".to_string());
    Chain::new(&table).with_name("mockchain".to_string())
}

#[test]
fn counter_roundtrip_keeps_presence_and_absence() {
    roundtrip(Counter::new());
    roundtrip(Counter::new().with_nb_bytes(0));
    roundtrip(Counter::new().with_nb_packets(0));
    roundtrip(Counter::new().with_nb_bytes(123456).with_nb_packets(987));
    roundtrip(Counter::new().with_nb_bytes(u64::MAX).with_nb_packets(u64::MAX));
}

#[test]
fn an_absent_field_is_not_written_and_stays_absent() {
    let only_packets = Counter::new().with_nb_packets(0);
    let bytes = serialize(&only_packets).unwrap();
    let mut expected = Vec::new();
    write_attribute(&mut expected, NFTA_COUNTER_PACKETS, &0u64.to_be_bytes()).unwrap();
    assert_eq!(bytes, expected);
    let back: Counter = deserialize(&bytes).unwrap();
    assert_eq!(back.nb_bytes, None);
    assert_eq!(back.nb_packets, Some(0));
    assert_eq!(serialize(&Counter::new()).unwrap(), Vec::<u8>::new());
}

#[test]
fn cmp_roundtrip() {
    roundtrip(Cmp::default());
    roundtrip(Cmp::new(CmpOp::Eq, vec![]));
    roundtrip(Cmp::new(CmpOp::Neq, vec![0]));
    roundtrip(Cmp::new(CmpOp::Lt, vec![0, 0]));
    roundtrip(Cmp::new(CmpOp::Lte, vec![1, 2, 3]));
    roundtrip(Cmp::new(CmpOp::Gt, vec![0xff; 16]));
    roundtrip(Cmp::new(CmpOp::Gte, vec![7; 5]));
    roundtrip(Cmp::default().with_op(CmpOp::Eq));
    roundtrip(Cmp::default().with_sreg(Register::Reg3));
}

#[test]
fn the_width_of_an_operand_is_kept() {
    let one = Cmp::new(CmpOp::Eq, vec![0]);
    let four = Cmp::new(CmpOp::Eq, vec![0, 0, 0, 0]);
    assert_ne!(serialize(&one).unwrap(), serialize(&four).unwrap());
    let back: Cmp = deserialize(&serialize(&one).unwrap()).unwrap();
    assert_eq!(back.data.unwrap().value.unwrap(), vec![0]);
    let back: Cmp = deserialize(&serialize(&four).unwrap()).unwrap();
    assert_eq!(back.data.unwrap().value.unwrap(), vec![0, 0, 0, 0]);
}

#[test]
fn bitwise_roundtrip() {
    roundtrip(Bitwise::default());
    roundtrip(Bitwise::new(vec![255, 255, 255, 0], vec![0, 0, 0, 0]).unwrap());
    roundtrip(Bitwise::new(vec![], vec![]).unwrap());
    roundtrip(Bitwise::default().with_len(4).with_dreg(Register::Reg2));
}

#[test]
fn bitwise_operands_must_have_one_length() {
    assert!(Bitwise::new(vec![1, 2], vec![1]).is_none());
    let b = Bitwise::new(vec![1, 2], vec![3, 4]).unwrap();
    assert_eq!(b.len, Some(2));
    assert_eq!(b.sreg, Some(Register::Reg1));
    assert_eq!(b.dreg, Some(Register::Reg1));
}

#[test]
fn conntrack_roundtrip() {
    roundtrip(Conntrack::default());
    for key in [
        ConntrackKey::State,
        ConntrackKey::Direction,
        ConntrackKey::Status,
        ConntrackKey::Mark,
    ] {
        roundtrip(Conntrack::new(key));
        roundtrip(Conntrack::default().with_key(key));
    }
}

#[test]
fn immediate_roundtrip() {
    roundtrip(Immediate::default());
    roundtrip(Immediate::new_data(vec![42], Register::Reg1));
    roundtrip(Immediate::new_data(vec![1, 2, 3, 4, 5, 6], Register::Reg4));
    for kind in [
        VerdictKind::Drop,
        VerdictKind::Accept,
        VerdictKind::Queue,
        VerdictKind::Continue,
        VerdictKind::Break,
        VerdictKind::Return,
        VerdictKind::Jump { chain: "other".to_string() },
        VerdictKind::Goto { chain: "elsewhere".to_string() },
    ] {
        roundtrip(Immediate::new_verdict(kind));
    }
}

#[test]
fn a_jump_carries_the_name_of_its_chain() {
    let jump = Immediate::new_verdict(VerdictKind::Jump { chain: "other".to_string() });
    assert_eq!(jump.dreg, Some(Register::Verdict));
    let verdict = jump.data.unwrap().verdict.unwrap();
    assert_eq!(verdict.code, Some(VerdictType::Jump));
    assert_eq!(verdict.chain, Some("other".to_string()));
    let drop = Immediate::new_verdict(VerdictKind::Drop);
    let verdict = drop.data.unwrap().verdict.unwrap();
    assert_eq!(verdict.code, Some(VerdictType::Drop));
    assert_eq!(verdict.chain, None);
}

#[test]
fn data_roundtrip() {
    roundtrip(NfNetlinkData::default());
    roundtrip(NfNetlinkData::from_value(vec![1, 2, 3]));
    roundtrip(NfNetlinkData::default().with_verdict(
        VerdictAttribute::default().with_code(VerdictType::Goto).with_chain("c".to_string()).with_chain_id(9),
    ));
}

#[test]
fn log_roundtrip() {
    roundtrip(Log::default());
    roundtrip(Log::new(Some(1), Some("mockprefix".to_string())));
    roundtrip(Log::new(None, Some("".to_string())));
    roundtrip(Log::new(Some(65535), None));
    roundtrip(Log::new(None, Some("préfixe: ünïcödé ✓".to_string())));
}

#[test]
fn lookup_roundtrip() {
    let table = Table::new(ProtocolFamily::Inet).with_name("mocktable".to_string());
    let set = NftSet::new(&table).with_name("mockset".to_string()).with_id(7);
    roundtrip(Lookup::default());
    roundtrip(Lookup::new(&set).unwrap());
    roundtrip(Lookup::default().with_set("s".to_string()));
}

#[test]
fn a_lookup_needs_a_set_with_name_and_id() {
    let table = Table::new(ProtocolFamily::Inet).with_name("mocktable".to_string());
    let nameless = NftSet::new(&table).with_id(1);
    assert_eq!(Lookup::new(&nameless), Err(BuilderError::MissingSetInformationError));
    let without_id = NftSet::new(&table).with_name("s".to_string());
    assert_eq!(Lookup::new(&without_id), Err(BuilderError::MissingSetInformationError));
    let set = NftSet::new(&table).with_name("s".to_string()).with_id(1);
    let lookup = Lookup::new(&set).unwrap();
    assert_eq!(lookup.sreg, Some(Register::Reg1));
    assert_eq!(lookup.set, Some("s".to_string()));
    assert_eq!(lookup.set_id, Some(1));
}

#[test]
fn masquerade_roundtrip() {
    roundtrip(Masquerade::new());
    assert_eq!(serialize(&Masquerade::new()).unwrap(), Vec::<u8>::new());
}

#[test]
fn meta_roundtrip() {
    roundtrip(Meta::default());
    for key in [
        MetaType::Len,
        MetaType::Protocol,
        MetaType::Priority,
        MetaType::Mark,
        MetaType::Iif,
        MetaType::Oif,
        MetaType::IifName,
        MetaType::OifName,
        MetaType::NfProto,
        MetaType::L4Proto,
    ] {
        roundtrip(Meta::new(key));
    }
    roundtrip(Meta::default().with_key(MetaType::Mark).with_sreg(Register::Reg2));
}

#[test]
fn nat_roundtrip() {
    roundtrip(Nat::default());
    roundtrip(
        Nat::default()
            .with_nat_type(NatType::SNat)
            .with_family(ProtocolFamily::Ipv4)
            .with_ip_register(Register::Reg1),
    );
    roundtrip(
        Nat::default()
            .with_nat_type(NatType::DNat)
            .with_family(ProtocolFamily::Ipv6)
            .with_ip_register(Register::Reg1)
            .with_port_register(Register::Reg2),
    );
}

#[test]
fn payload_roundtrip() {
    roundtrip(Payload::default());
    roundtrip(Payload::new(PayloadBase::LinkLayer, 0, 6));
    roundtrip(Payload::new(PayloadBase::Network, 12, 4));
    roundtrip(Payload::new(PayloadBase::Transport, 0, 2));
    roundtrip(Payload::default().with_offset(u32::MAX));
}

#[test]
fn range_roundtrip() {
    roundtrip(Range::default());
    roundtrip(Range::new(CmpOp::Eq, vec![0, 80], vec![0, 90]));
    roundtrip(Range::new(CmpOp::Neq, vec![1], vec![2, 3, 4]));
}

#[test]
fn range_uses_the_scratch_register() {
    let range = Range::new(CmpOp::Eq, vec![0, 80], vec![0, 90]);
    assert_eq!(range.sreg, Some(Register::Reg1));
    assert_eq!(range.op, Some(CmpOp::Eq));
    assert_eq!(range.from, Some(NfNetlinkData::from_value(vec![0, 80])));
    assert_eq!(range.to, Some(NfNetlinkData::from_value(vec![0, 90])));
}

#[test]
fn reject_roundtrip() {
    roundtrip(Reject::default());
    for ty in [RejectType::IcmpUnreach, RejectType::TcpRst, RejectType::IcmpxUnreach] {
        roundtrip(Reject::default().with_reject_type(ty));
    }
    for code in [
        IcmpCode::NoRoute,
        IcmpCode::PortUnreach,
        IcmpCode::HostUnreach,
        IcmpCode::AdminProhibited,
    ] {
        roundtrip(Reject::default().with_reject_type(RejectType::IcmpxUnreach).with_icmp_code(code));
    }
}

#[test]
fn every_kind_is_found_again_from_its_name() {
    let kinds = [
        (ExpressionKind::Bitwise, "bitwise"),
        (ExpressionKind::Cmp, "cmp"),
        (ExpressionKind::Counter, "counter"),
        (ExpressionKind::Conntrack, "ct"),
        (ExpressionKind::Immediate, "immediate"),
        (ExpressionKind::Log, "log"),
        (ExpressionKind::Lookup, "lookup"),
        (ExpressionKind::Masquerade, "masq"),
        (ExpressionKind::Meta, "meta"),
        (ExpressionKind::Nat, "nat"),
        (ExpressionKind::Payload, "payload"),
        (ExpressionKind::Range, "range"),
        (ExpressionKind::Reject, "reject"),
    ];
    for (kind, name) in kinds {
        assert_eq!(kind.get_name(), name);
        assert_eq!(ExpressionKind::from_name(name), Some(kind));
    }
    assert_eq!(ExpressionKind::from_name("limit"), None);
    assert_eq!(ExpressionKind::from_name(""), None);
    assert_eq!(ExpressionKind::from_name("cmp "), None);
}

#[test]
fn raw_expression_roundtrip() {
    roundtrip(RawExpression::new(Cmp::new(CmpOp::Eq, vec![1, 2])));
    roundtrip(RawExpression::new(Masquerade::new()));
    roundtrip(RawExpression::new(Counter::new().with_nb_bytes(1)));
    roundtrip(RawExpression::new(Immediate::new_verdict(VerdictKind::Accept)));
    roundtrip(RawExpression { name: None, data: None });
    roundtrip(RawExpression { name: Some("limit".to_string()), data: None });
}

#[test]
fn a_raw_expression_has_the_name_of_its_kind() {
    let raw = RawExpression::new(Cmp::new(CmpOp::Eq, vec![1]));
    assert_eq!(raw.name, Some("cmp".to_string()));
    assert_eq!(raw.data, Some(ExpressionData::Cmp(Cmp::new(CmpOp::Eq, vec![1]))));
}

#[test]
fn expression_list_keeps_its_order() {
    let a = Meta::new(MetaType::L4Proto);
    let b = Cmp::new(CmpOp::Eq, vec![6]);
    let c = Immediate::new_verdict(VerdictKind::Accept);
    let mut list = ExpressionList::new();
    list.add_value(a);
    list.add_value(b.clone());
    list.add_value(c.clone());
    let back: ExpressionList = deserialize(&serialize(&list).unwrap()).unwrap();
    assert_eq!(back.len(), 3);
    assert_eq!(back.get(0), &RawExpression::new(a));
    assert_eq!(back.get(1), &RawExpression::new(b));
    assert_eq!(back.get(2), &RawExpression::new(c));
    assert_eq!(back, list);
}

#[test]
fn rule_expressions_keep_their_order_through_a_message() {
    let a = Payload::new(PayloadBase::Transport, 2, 2);
    let b = Cmp::new(CmpOp::Eq, vec![0, 22]);
    let c = Counter::new();
    let rule = Rule::new(&test_chain()).unwrap().with_expr(a).with_expr(b.clone()).with_expr(c);
    let mut buf = Vec::new();
    add_or_remove(&rule, &mut buf, MsgType::Add, 5).unwrap();
    let (hdr, msg) = parse_nlmsg(&buf, 5, 0).unwrap();
    assert_eq!(hdr.len as usize, buf.len());
    assert_eq!(hdr.seq, 5);
    let back: Rule = match msg {
        NlMsg::NfGenMsg(g, data) => decode_object(&g, data).unwrap(),
        _ => panic!("expected a data message"),
    };
    assert_eq!(back, rule);
    let exprs = back.expressions.unwrap();
    assert_eq!(exprs.len(), 3);
    assert_eq!(exprs.get(0).data, Some(ExpressionData::Payload(a)));
    assert_eq!(exprs.get(1).data, Some(ExpressionData::Cmp(b)));
    assert_eq!(exprs.get(2).data, Some(ExpressionData::Counter(c)));
    assert_eq!(exprs.get(0).name, Some("payload".to_string()));
    assert_eq!(exprs.get(1).name, Some("cmp".to_string()));
    assert_eq!(exprs.get(2).name, Some("counter".to_string()));
}

#[test]
fn an_empty_expression_list_is_not_an_absent_one() {
    let without = Rule::new(&test_chain()).unwrap();
    let with_empty = Rule::new(&test_chain()).unwrap().with_expressions(ExpressionList::new());
    assert_ne!(without, with_empty);
    let mut a = Vec::new();
    add_or_remove(&without, &mut a, MsgType::Add, 0).unwrap();
    let mut b = Vec::new();
    add_or_remove(&with_empty, &mut b, MsgType::Add, 0).unwrap();
    assert_eq!(b.len(), a.len() + 4);
    let back: Rule = match parse_nlmsg(&b, 0, 0).unwrap().1 {
        NlMsg::NfGenMsg(g, data) => decode_object(&g, data).unwrap(),
        _ => panic!("expected a data message"),
    };
    assert_eq!(back, with_empty);
    assert_eq!(back.expressions.unwrap().len(), 0);
    let back: Rule = match parse_nlmsg(&a, 0, 0).unwrap().1 {
        NlMsg::NfGenMsg(g, data) => decode_object(&g, data).unwrap(),
        _ => panic!("expected a data message"),
    };
    assert_eq!(back.expressions, None);
}

fn message_roundtrip_rule(rule: Rule, op: MsgType) {
    let mut buf = Vec::new();
    add_or_remove(&rule, &mut buf, op, 0).unwrap();
    let back: Rule = match parse_nlmsg(&buf, 0, 0).unwrap().1 {
        NlMsg::NfGenMsg(g, data) => decode_object(&g, data).unwrap(),
        _ => panic!("expected a data message"),
    };
    assert_eq!(back, rule);
}

#[test]
fn rule_roundtrip_for_present_and_absent_fields() {
    message_roundtrip_rule(Rule::default(), MsgType::Add);
    message_roundtrip_rule(Rule::default().with_family(ProtocolFamily::Bridge), MsgType::Del);
    message_roundtrip_rule(Rule::new(&test_chain()).unwrap(), MsgType::Add);
    message_roundtrip_rule(Rule::default().with_handle(7), MsgType::Del);
    message_roundtrip_rule(
        Rule::new(&test_chain())
            .unwrap()
            .with_handle(7)
            .with_position(3)
            .with_id(99)
            .with_userdata(vec![1, 2, 3])
            .with_expr(Log::new(Some(2), None)),
        MsgType::Add,
    );
    message_roundtrip_rule(Rule::default().with_userdata(vec![]), MsgType::Add);
}

#[test]
fn table_chain_and_set_roundtrip_through_a_message() {
    let table = Table::new(ProtocolFamily::Ipv6)
        .with_name("filter".to_string())
        .with_flags(1)
        .with_handle(12)
        .with_userdata(vec![9, 9]);
    let mut buf = Vec::new();
    add_or_remove(&table, &mut buf, MsgType::Add, 1).unwrap();
    let back: Table = match parse_nlmsg(&buf, 1, 0).unwrap().1 {
        NlMsg::NfGenMsg(g, data) => decode_object(&g, data).unwrap(),
        _ => panic!("expected a data message"),
    };
    assert_eq!(back, table);

    let chain = Chain::new(&table)
        .with_name("input".to_string())
        .with_hook(Hook::new(HookClass::In, 0))
        .with_policy(ChainPolicy::Drop)
        .with_handle(4);
    assert_eq!(chain.family, ProtocolFamily::Ipv6);
    assert_eq!(chain.table, Some("filter".to_string()));
    let mut buf = Vec::new();
    add_or_remove(&chain, &mut buf, MsgType::Add, 1).unwrap();
    let back: Chain = match parse_nlmsg(&buf, 1, 0).unwrap().1 {
        NlMsg::NfGenMsg(g, data) => decode_object(&g, data).unwrap(),
        _ => panic!("expected a data message"),
    };
    assert_eq!(back, chain);

    let set = NftSet::new(&table)
        .with_name("allowed".to_string())
        .with_id(3)
        .with_key_type(7)
        .with_key_len(4);
    let mut buf = Vec::new();
    add_or_remove(&set, &mut buf, MsgType::Add, 1).unwrap();
    let back: NftSet = match parse_nlmsg(&buf, 1, 0).unwrap().1 {
        NlMsg::NfGenMsg(g, data) => decode_object(&g, data).unwrap(),
        _ => panic!("expected a data message"),
    };
    assert_eq!(back, set);

    let mut elements = SetElementList::new(&set).unwrap();
    elements.add(vec![8, 8, 8, 8]);
    elements.add(vec![1, 1, 1, 1]);
    let mut buf = Vec::new();
    add_or_remove(&elements, &mut buf, MsgType::Add, 1).unwrap();
    let back: SetElementList = match parse_nlmsg(&buf, 1, 0).unwrap().1 {
        NlMsg::NfGenMsg(g, data) => decode_object(&g, data).unwrap(),
        _ => panic!("expected a data message"),
    };
    assert_eq!(back, elements);
    let list = back.elements.unwrap();
    assert_eq!(list.len(), 2);
    assert_eq!(list.get(0).key, Some(NfNetlinkData::from_value(vec![8, 8, 8, 8])));
    assert_eq!(list.get(1).key, Some(NfNetlinkData::from_value(vec![1, 1, 1, 1])));
}

#[test]
fn set_elements_need_a_set_with_table_and_name() {
    let table = Table::new(ProtocolFamily::Inet);
    let set = NftSet::new(&table).with_name("s".to_string());
    assert_eq!(SetElementList::new(&set), Err(BuilderError::MissingSetInformationError));
    let table = Table::new(ProtocolFamily::Inet).with_name("t".to_string());
    let set = NftSet::new(&table);
    assert_eq!(SetElementList::new(&set), Err(BuilderError::MissingSetInformationError));
}

#[test]
fn an_unknown_attribute_is_passed_over() {
    let mut bytes = Vec::new();
    write_attribute(&mut bytes, 200, &[1, 2, 3]).unwrap();
    write_attribute(&mut bytes, NFTA_COUNTER_BYTES, &5u64.to_be_bytes()).unwrap();
    write_attribute(&mut bytes, 0x3fff, &[]).unwrap();
    let counter: Counter = deserialize(&bytes).unwrap();
    assert_eq!(counter, Counter::new().with_nb_bytes(5));
}

#[test]
fn attributes_are_taken_in_any_order_and_the_last_one_stays() {
    let mut bytes = Vec::new();
    write_attribute(&mut bytes, NFTA_COUNTER_PACKETS, &2u64.to_be_bytes()).unwrap();
    write_attribute(&mut bytes, NFTA_COUNTER_BYTES, &1u64.to_be_bytes()).unwrap();
    write_attribute(&mut bytes, NFTA_COUNTER_PACKETS, &3u64.to_be_bytes()).unwrap();
    let counter: Counter = deserialize(&bytes).unwrap();
    assert_eq!(counter, Counter::new().with_nb_bytes(1).with_nb_packets(3));
}

#[test]
fn a_number_of_the_wrong_width_fails_the_decoding() {
    let mut bytes = Vec::new();
    write_attribute(&mut bytes, NFTA_COUNTER_BYTES, &5u32.to_be_bytes()).unwrap();
    assert_eq!(deserialize::<Counter>(&bytes), Err(DecodeError::InvalidDataSize));
    let mut bytes = Vec::new();
    write_attribute(&mut bytes, NFTA_RULE_HANDLE, &[1]).unwrap();
    assert_eq!(deserialize::<Rule>(&bytes), Err(DecodeError::InvalidDataSize));
    let mut bytes = Vec::new();
    write_attribute(&mut bytes, NFTA_REJECT_ICMP_CODE, &[0, 0]).unwrap();
    assert_eq!(deserialize::<Reject>(&bytes), Err(DecodeError::InvalidDataSize));
}

#[test]
fn text_that_is_not_utf8_fails_the_decoding() {
    let mut bytes = Vec::new();
    write_attribute(&mut bytes, NFTA_LOG_PREFIX, &[0xff, 0xfe, 0]).unwrap();
    assert_eq!(deserialize::<Log>(&bytes), Err(DecodeError::InvalidUtf8));
    let mut bytes = Vec::new();
    write_attribute(&mut bytes, NFTA_RULE_TABLE, &[b'a', 0xc3]).unwrap();
    assert_eq!(deserialize::<Rule>(&bytes), Err(DecodeError::InvalidUtf8));
}

#[test]
fn text_is_decoded_with_or_without_its_terminator() {
    let mut bytes = Vec::new();
    write_attribute(&mut bytes, NFTA_LOG_PREFIX, b"abc\0").unwrap();
    assert_eq!(deserialize::<Log>(&bytes).unwrap().prefix, Some("abc".to_string()));
    let mut bytes = Vec::new();
    write_attribute(&mut bytes, NFTA_LOG_PREFIX, b"abc").unwrap();
    assert_eq!(deserialize::<Log>(&bytes).unwrap().prefix, Some("abc".to_string()));
    let mut bytes = Vec::new();
    write_attribute(&mut bytes, NFTA_LOG_PREFIX, b"abc\0\0").unwrap();
    assert_eq!(deserialize::<Log>(&bytes).unwrap().prefix, Some("abc\0".to_string()));
    let mut bytes = Vec::new();
    write_attribute(&mut bytes, NFTA_LOG_PREFIX, "h\u{e9}\0".as_bytes()).unwrap();
    assert_eq!(deserialize::<Log>(&bytes).unwrap().prefix, Some("h\u{e9}".to_string()));
    let mut bytes = Vec::new();
    write_attribute(&mut bytes, NFTA_LOG_PREFIX, &[]).unwrap();
    assert_eq!(deserialize::<Log>(&bytes).unwrap().prefix, Some(String::new()));
}

#[test]
fn text_is_written_with_a_terminator() {
    let log = Log::new(None, Some("abc".to_string()));
    let mut expected = Vec::new();
    write_attribute(&mut expected, NFTA_LOG_PREFIX, b"abc\0").unwrap();
    assert_eq!(serialize(&log).unwrap(), expected);
}

#[test]
fn a_number_that_names_no_variant_fails_the_decoding() {
    let mut bytes = Vec::new();
    write_attribute(&mut bytes, NFTA_CMP_OP, &6u32.to_be_bytes()).unwrap();
    assert_eq!(deserialize::<Cmp>(&bytes), Err(DecodeError::UnknownDiscriminant(6)));
    let mut bytes = Vec::new();
    write_attribute(&mut bytes, NFTA_CMP_SREG, &5u32.to_be_bytes()).unwrap();
    assert_eq!(deserialize::<Cmp>(&bytes), Err(DecodeError::UnknownDiscriminant(5)));
    let mut bytes = Vec::new();
    write_attribute(&mut bytes, NFTA_REJECT_ICMP_CODE, &[4]).unwrap();
    assert_eq!(deserialize::<Reject>(&bytes), Err(DecodeError::UnknownDiscriminant(4)));
}

#[test]
fn the_first_malformed_attribute_decides_the_error() {
    let mut bytes = Vec::new();
    write_attribute(&mut bytes, NFTA_CMP_OP, &9u32.to_be_bytes()).unwrap();
    write_attribute(&mut bytes, NFTA_CMP_SREG, &[1]).unwrap();
    assert_eq!(deserialize::<Cmp>(&bytes), Err(DecodeError::UnknownDiscriminant(9)));
    let mut bytes = Vec::new();
    write_attribute(&mut bytes, NFTA_CMP_SREG, &[1]).unwrap();
    write_attribute(&mut bytes, NFTA_CMP_OP, &9u32.to_be_bytes()).unwrap();
    assert_eq!(deserialize::<Cmp>(&bytes), Err(DecodeError::InvalidDataSize));
    let mut bytes = Vec::new();
    write_attribute(&mut bytes, NFTA_CMP_SREG, &1u32.to_be_bytes()).unwrap();
    bytes.extend([3, 0, 1, 0]);
    assert_eq!(deserialize::<Cmp>(&bytes), Err(DecodeError::InvalidAttributeLength));
}

#[test]
fn data_before_the_name_fails_the_decoding() {
    let mut bytes = Vec::new();
    write_attribute(&mut bytes, NFTA_EXPR_DATA | NLA_F_NESTED, &[]).unwrap();
    write_attribute(&mut bytes, NFTA_EXPR_NAME, b"masq\0").unwrap();
    assert_eq!(deserialize::<RawExpression>(&bytes), Err(DecodeError::MissingExpressionName));
}

#[test]
fn data_under_an_unknown_name_fails_the_decoding() {
    let mut bytes = Vec::new();
    write_attribute(&mut bytes, NFTA_EXPR_NAME, b"limit\0").unwrap();
    write_attribute(&mut bytes, NFTA_EXPR_DATA | NLA_F_NESTED, &[]).unwrap();
    assert_eq!(deserialize::<RawExpression>(&bytes), Err(DecodeError::UnknownExpression));
}

#[test]
fn data_is_read_as_the_kind_that_the_name_stands_for() {
    let mut data = Vec::new();
    write_attribute(&mut data, NFTA_COUNTER_BYTES, &1u64.to_be_bytes()).unwrap();
    let mut bytes = Vec::new();
    write_attribute(&mut bytes, NFTA_EXPR_NAME, b"counter\0").unwrap();
    write_attribute(&mut bytes, NFTA_EXPR_DATA | NLA_F_NESTED, &data).unwrap();
    let raw: RawExpression = deserialize(&bytes).unwrap();
    assert_eq!(raw, RawExpression::new(Counter::new().with_nb_bytes(1)));
    assert_eq!(raw.get_data().unwrap().get_kind(), ExpressionKind::Counter);
}

#[test]
fn a_payload_that_is_too_long_fails_the_encoding() {
    let rule = Rule::default().with_userdata(vec![0; 65532]);
    assert_eq!(serialize(&rule), Err(BuilderError::AttributeTooLarge));
    let rule = Rule::default().with_userdata(vec![0; 65531]);
    assert!(serialize(&rule).is_ok());
    let cmp = Cmp::new(CmpOp::Eq, vec![0; 65528]);
    assert_eq!(serialize(&cmp), Err(BuilderError::AttributeTooLarge));
    let cmp = Cmp::new(CmpOp::Eq, vec![0; 65524]);
    assert!(serialize(&cmp).is_ok());
    let mut buf = vec![1, 2, 3];
    let rule = Rule::default().with_expr(Cmp::new(CmpOp::Eq, vec![0; 65524]));
    assert_eq!(
        add_or_remove(&rule, &mut buf, MsgType::Add, 0),
        Err(BuilderError::AttributeTooLarge)
    );
    assert_eq!(buf, vec![1, 2, 3]);
}
