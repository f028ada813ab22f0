use rustables::sys::{
    NFNETLINK_V0, NFNL_MSG_BATCH_BEGIN, NFNL_MSG_BATCH_END, NFNL_SUBSYS_NFTABLES, NFPROTO_ARP,
    NFPROTO_BRIDGE, NFPROTO_INET, NFPROTO_IPV4, NFPROTO_IPV6, NFPROTO_NETDEV, NFPROTO_UNSPEC,
    NFT_BREAK, NFT_CONTINUE, NFT_CT_STATE, NFT_GOTO, NFT_JUMP, NFT_META_L4PROTO, NFT_META_LEN,
    NFT_META_NFPROTO, NFT_META_PROTOCOL, NFT_MSG_DELCHAIN, NFT_MSG_DELRULE, NFT_MSG_DELSET,
    NFT_MSG_DELSETELEM, NFT_MSG_DELTABLE, NFT_MSG_GETCHAIN, NFT_MSG_GETRULE, NFT_MSG_GETSET,
    NFT_MSG_GETSETELEM, NFT_MSG_GETTABLE, NFT_MSG_NEWCHAIN, NFT_MSG_NEWRULE, NFT_MSG_NEWSET,
    NFT_MSG_NEWSETELEM, NFT_MSG_NEWTABLE, NFT_NAT_SNAT, NFT_PAYLOAD_TRANSPORT_HEADER, NFT_REG_1,
    NFT_REJECT_ICMPX_ADMIN_PROHIBITED, NFT_REJECT_ICMPX_HOST_UNREACH, NFT_REJECT_ICMPX_NO_ROUTE,
    NFT_REJECT_ICMPX_PORT_UNREACH, NFT_REJECT_ICMPX_UNREACH, NFT_REJECT_ICMP_UNREACH,
    NFT_REJECT_TCP_RST, NFT_RETURN, NF_ACCEPT, NF_DROP, NF_INET_FORWARD, NF_INET_LOCAL_IN,
    NF_INET_LOCAL_OUT, NF_INET_POST_ROUTING, NF_INET_PRE_ROUTING, NF_QUEUE, NLA_ALIGNTO,
    NLA_F_NESTED, NLA_F_NET_BYTEORDER, NLA_TYPE_MASK, NLMSG_DONE, NLMSG_ERROR, NLMSG_MIN_TYPE,
    NLMSG_NOOP, NLM_F_ACK, NLM_F_APPEND, NLM_F_CREATE, NLM_F_DUMP_INTR, NLM_F_MATCH,
    NLM_F_REQUEST, NLM_F_ROOT,
};

#[test]
fn message_numbers_are_those_of_the_kernel_headers() {
    assert_eq!(NLMSG_NOOP as i32, libc::NLMSG_NOOP);
    assert_eq!(NLMSG_ERROR as i32, libc::NLMSG_ERROR);
    assert_eq!(NLMSG_DONE as i32, libc::NLMSG_DONE);
    assert_eq!(NLMSG_MIN_TYPE as i32, libc::NLMSG_MIN_TYPE);
    assert_eq!(NFNL_MSG_BATCH_BEGIN as i32, libc::NFNL_MSG_BATCH_BEGIN);
    assert_eq!(NFNL_MSG_BATCH_END as i32, libc::NFNL_MSG_BATCH_END);
    assert_eq!(NFNL_SUBSYS_NFTABLES as i32, libc::NFNL_SUBSYS_NFTABLES);
    assert_eq!(NFNETLINK_V0 as i32, libc::NFNETLINK_V0);
    assert_eq!(NFT_MSG_NEWTABLE as i32, libc::NFT_MSG_NEWTABLE);
    assert_eq!(NFT_MSG_GETTABLE as i32, libc::NFT_MSG_GETTABLE);
    assert_eq!(NFT_MSG_DELTABLE as i32, libc::NFT_MSG_DELTABLE);
    assert_eq!(NFT_MSG_NEWCHAIN as i32, libc::NFT_MSG_NEWCHAIN);
    assert_eq!(NFT_MSG_GETCHAIN as i32, libc::NFT_MSG_GETCHAIN);
    assert_eq!(NFT_MSG_DELCHAIN as i32, libc::NFT_MSG_DELCHAIN);
    assert_eq!(NFT_MSG_NEWRULE as i32, libc::NFT_MSG_NEWRULE);
    assert_eq!(NFT_MSG_GETRULE as i32, libc::NFT_MSG_GETRULE);
    assert_eq!(NFT_MSG_DELRULE as i32, libc::NFT_MSG_DELRULE);
    assert_eq!(NFT_MSG_NEWSET as i32, libc::NFT_MSG_NEWSET);
    assert_eq!(NFT_MSG_GETSET as i32, libc::NFT_MSG_GETSET);
    assert_eq!(NFT_MSG_DELSET as i32, libc::NFT_MSG_DELSET);
    assert_eq!(NFT_MSG_NEWSETELEM as i32, libc::NFT_MSG_NEWSETELEM);
    assert_eq!(NFT_MSG_GETSETELEM as i32, libc::NFT_MSG_GETSETELEM);
    assert_eq!(NFT_MSG_DELSETELEM as i32, libc::NFT_MSG_DELSETELEM);
}

#[test]
fn flags_are_those_of_the_kernel_headers() {
    assert_eq!(NLM_F_REQUEST as i32, libc::NLM_F_REQUEST);
    assert_eq!(NLM_F_ACK as i32, libc::NLM_F_ACK);
    assert_eq!(NLM_F_DUMP_INTR as i32, libc::NLM_F_DUMP_INTR);
    assert_eq!(NLM_F_ROOT as i32, libc::NLM_F_ROOT);
    assert_eq!(NLM_F_MATCH as i32, libc::NLM_F_MATCH);
    assert_eq!(NLM_F_CREATE as i32, libc::NLM_F_CREATE);
    assert_eq!(NLM_F_APPEND as i32, libc::NLM_F_APPEND);
    assert_eq!(NLA_ALIGNTO as i32, libc::NLA_ALIGNTO);
    assert_eq!(NLA_F_NESTED as i32, libc::NLA_F_NESTED);
    assert_eq!(NLA_F_NET_BYTEORDER as i32, libc::NLA_F_NET_BYTEORDER);
    assert_eq!(NLA_TYPE_MASK as i32, libc::NLA_TYPE_MASK & 0xffff);
}

#[test]
fn verdicts_and_enumerations_are_those_of_the_kernel_headers() {
    assert_eq!(NF_DROP as i32, libc::NF_DROP);
    assert_eq!(NF_ACCEPT as i32, libc::NF_ACCEPT);
    assert_eq!(NF_QUEUE as i32, libc::NF_QUEUE);
    assert_eq!(NFT_CONTINUE as i32, libc::NFT_CONTINUE);
    assert_eq!(NFT_BREAK as i32, libc::NFT_BREAK);
    assert_eq!(NFT_JUMP as i32, libc::NFT_JUMP);
    assert_eq!(NFT_GOTO as i32, libc::NFT_GOTO);
    assert_eq!(NFT_RETURN as i32, libc::NFT_RETURN);
    assert_eq!(NFT_REG_1 as i32, libc::NFT_REG_1);
    assert_eq!(NFT_NAT_SNAT as i32, libc::NFT_NAT_SNAT);
    assert_eq!(NFT_CT_STATE as i32, libc::NFT_CT_STATE);
    assert_eq!(NFT_META_LEN as i32, libc::NFT_META_LEN);
    assert_eq!(NFT_META_PROTOCOL as i32, libc::NFT_META_PROTOCOL);
    assert_eq!(NFT_META_NFPROTO as i32, libc::NFT_META_NFPROTO);
    assert_eq!(NFT_META_L4PROTO as i32, libc::NFT_META_L4PROTO);
    assert_eq!(NFT_PAYLOAD_TRANSPORT_HEADER as i32, libc::NFT_PAYLOAD_TRANSPORT_HEADER);
    assert_eq!(NFT_REJECT_ICMP_UNREACH as i32, libc::NFT_REJECT_ICMP_UNREACH);
    assert_eq!(NFT_REJECT_TCP_RST as i32, libc::NFT_REJECT_TCP_RST);
    assert_eq!(NFT_REJECT_ICMPX_UNREACH as i32, libc::NFT_REJECT_ICMPX_UNREACH);
    assert_eq!(NFT_REJECT_ICMPX_NO_ROUTE as i32, libc::NFT_REJECT_ICMPX_NO_ROUTE);
    assert_eq!(NFT_REJECT_ICMPX_PORT_UNREACH as i32, libc::NFT_REJECT_ICMPX_PORT_UNREACH);
    assert_eq!(NFT_REJECT_ICMPX_HOST_UNREACH as i32, libc::NFT_REJECT_ICMPX_HOST_UNREACH);
    assert_eq!(NFT_REJECT_ICMPX_ADMIN_PROHIBITED as i32, libc::NFT_REJECT_ICMPX_ADMIN_PROHIBITED);
}

#[test]
fn hooks_and_families_are_those_of_the_kernel_headers() {
    assert_eq!(NF_INET_PRE_ROUTING as i32, libc::NF_INET_PRE_ROUTING);
    assert_eq!(NF_INET_LOCAL_IN as i32, libc::NF_INET_LOCAL_IN);
    assert_eq!(NF_INET_FORWARD as i32, libc::NF_INET_FORWARD);
    assert_eq!(NF_INET_LOCAL_OUT as i32, libc::NF_INET_LOCAL_OUT);
    assert_eq!(NF_INET_POST_ROUTING as i32, libc::NF_INET_POST_ROUTING);
    assert_eq!(NFPROTO_UNSPEC as i32, libc::NFPROTO_UNSPEC);
    assert_eq!(NFPROTO_INET as i32, libc::NFPROTO_INET);
    assert_eq!(NFPROTO_IPV4 as i32, libc::NFPROTO_IPV4);
    assert_eq!(NFPROTO_ARP as i32, libc::NFPROTO_ARP);
    assert_eq!(NFPROTO_NETDEV as i32, libc::NFPROTO_NETDEV);
    assert_eq!(NFPROTO_BRIDGE as i32, libc::NFPROTO_BRIDGE);
    assert_eq!(NFPROTO_IPV6 as i32, libc::NFPROTO_IPV6);
}

#[test]
fn attribute_codes_are_those_of_the_kernel_headers() {
    let codes: [(u16, u16); 81] = [
        (rustables::sys::NFTA_LIST_ELEM, 1),
        (rustables::sys::NFTA_TABLE_NAME, 1),
        (rustables::sys::NFTA_TABLE_FLAGS, 2),
        (rustables::sys::NFTA_TABLE_HANDLE, 4),
        (rustables::sys::NFTA_TABLE_USERDATA, 6),
        (rustables::sys::NFTA_CHAIN_TABLE, 1),
        (rustables::sys::NFTA_CHAIN_HANDLE, 2),
        (rustables::sys::NFTA_CHAIN_NAME, 3),
        (rustables::sys::NFTA_CHAIN_HOOK, 4),
        (rustables::sys::NFTA_CHAIN_POLICY, 5),
        (rustables::sys::NFTA_CHAIN_TYPE, 7),
        (rustables::sys::NFTA_HOOK_HOOKNUM, 1),
        (rustables::sys::NFTA_HOOK_PRIORITY, 2),
        (rustables::sys::NFTA_RULE_TABLE, 1),
        (rustables::sys::NFTA_RULE_CHAIN, 2),
        (rustables::sys::NFTA_RULE_HANDLE, 3),
        (rustables::sys::NFTA_RULE_EXPRESSIONS, 4),
        (rustables::sys::NFTA_RULE_POSITION, 6),
        (rustables::sys::NFTA_RULE_USERDATA, 7),
        (rustables::sys::NFTA_RULE_ID, 9),
        (rustables::sys::NFTA_SET_TABLE, 1),
        (rustables::sys::NFTA_SET_NAME, 2),
        (rustables::sys::NFTA_SET_FLAGS, 3),
        (rustables::sys::NFTA_SET_KEY_TYPE, 4),
        (rustables::sys::NFTA_SET_KEY_LEN, 5),
        (rustables::sys::NFTA_SET_ID, 10),
        (rustables::sys::NFTA_SET_USERDATA, 13),
        (rustables::sys::NFTA_SET_ELEM_KEY, 1),
        (rustables::sys::NFTA_SET_ELEM_LIST_TABLE, 1),
        (rustables::sys::NFTA_SET_ELEM_LIST_SET, 2),
        (rustables::sys::NFTA_SET_ELEM_LIST_ELEMENTS, 3),
        (rustables::sys::NFTA_SET_ELEM_LIST_SET_ID, 4),
        (rustables::sys::NFTA_EXPR_NAME, 1),
        (rustables::sys::NFTA_EXPR_DATA, 2),
        (rustables::sys::NFTA_DATA_VALUE, 1),
        (rustables::sys::NFTA_DATA_VERDICT, 2),
        (rustables::sys::NFTA_VERDICT_CODE, 1),
        (rustables::sys::NFTA_VERDICT_CHAIN, 2),
        (rustables::sys::NFTA_VERDICT_CHAIN_ID, 3),
        (rustables::sys::NFTA_BITWISE_SREG, 1),
        (rustables::sys::NFTA_BITWISE_DREG, 2),
        (rustables::sys::NFTA_BITWISE_LEN, 3),
        (rustables::sys::NFTA_BITWISE_MASK, 4),
        (rustables::sys::NFTA_BITWISE_XOR, 5),
        (rustables::sys::NFTA_CMP_SREG, 1),
        (rustables::sys::NFTA_CMP_OP, 2),
        (rustables::sys::NFTA_CMP_DATA, 3),
        (rustables::sys::NFTA_COUNTER_BYTES, 1),
        (rustables::sys::NFTA_COUNTER_PACKETS, 2),
        (rustables::sys::NFTA_CT_DREG, 1),
        (rustables::sys::NFTA_CT_KEY, 2),
        (rustables::sys::NFTA_CT_DIRECTION, 3),
        (rustables::sys::NFTA_CT_SREG, 4),
        (rustables::sys::NFTA_IMMEDIATE_DREG, 1),
        (rustables::sys::NFTA_IMMEDIATE_DATA, 2),
        (rustables::sys::NFTA_LOG_GROUP, 1),
        (rustables::sys::NFTA_LOG_PREFIX, 2),
        (rustables::sys::NFTA_LOOKUP_SET, 1),
        (rustables::sys::NFTA_LOOKUP_SREG, 2),
        (rustables::sys::NFTA_LOOKUP_DREG, 3),
        (rustables::sys::NFTA_LOOKUP_SET_ID, 4),
        (rustables::sys::NFTA_MASQ_FLAGS, 1),
        (rustables::sys::NFTA_MASQ_REG_PROTO_MIN, 2),
        (rustables::sys::NFTA_MASQ_REG_PROTO_MAX, 3),
        (rustables::sys::NFTA_META_DREG, 1),
        (rustables::sys::NFTA_META_KEY, 2),
        (rustables::sys::NFTA_META_SREG, 3),
        (rustables::sys::NFTA_NAT_TYPE, 1),
        (rustables::sys::NFTA_NAT_FAMILY, 2),
        (rustables::sys::NFTA_NAT_REG_ADDR_MIN, 3),
        (rustables::sys::NFTA_NAT_REG_PROTO_MIN, 5),
        (rustables::sys::NFTA_PAYLOAD_DREG, 1),
        (rustables::sys::NFTA_PAYLOAD_BASE, 2),
        (rustables::sys::NFTA_PAYLOAD_OFFSET, 3),
        (rustables::sys::NFTA_PAYLOAD_LEN, 4),
        (rustables::sys::NFTA_RANGE_SREG, 1),
        (rustables::sys::NFTA_RANGE_OP, 2),
        (rustables::sys::NFTA_RANGE_FROM_DATA, 3),
        (rustables::sys::NFTA_RANGE_TO_DATA, 4),
        (rustables::sys::NFTA_REJECT_TYPE, 1),
        (rustables::sys::NFTA_REJECT_ICMP_CODE, 2),
    ];
    for (ours, theirs) in codes {
        assert_eq!(ours, theirs);
    }
}

#[test]
fn the_id_of_a_rule_is_written_under_its_own_code() {
    let rule = rustables::Rule::default().with_id(0x0102_0304);
    let bytes = rustables::schema::serialize(&rule).unwrap();
    assert_eq!(bytes, vec![8, 0, 9, 0, 1, 2, 3, 4]);
    let padding = [8u8, 0, 8, 0, 1, 2, 3, 4];
    let back: rustables::Rule = rustables::schema::deserialize(&padding).unwrap();
    assert_eq!(back.id, None);
}
