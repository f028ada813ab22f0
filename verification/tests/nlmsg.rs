use rustables::expr::Counter;
use rustables::nlmsg::{
    add_or_remove, decode_object, finalize_message, get_operation_from_nlmsghdr_type,
    get_subsystem_from_nlmsghdr_type, parse_nlmsg, write_header, write_message, NfGenMsg, NlMsg,
    NlMsgHeader,
};
use rustables::schema::serialize;
use rustables::sys::{NFT_MSG_DELTABLE, NFT_MSG_NEWTABLE, NLM_F_ACK, NLM_F_CREATE, NLM_F_REQUEST};
use rustables::{DecodeError, MsgType, ProtocolFamily, Rule, Table};

#[test]
fn a_header_is_twenty_bytes_in_host_order() {
    let mut buf = vec![0xee];
    let g = NfGenMsg { family: 2, version: 0, res_id: 0x0102 };
    let start = write_header(&mut buf, 0x0a06, 0x0405, 0x0102_0304, g);
    assert_eq!(start, 1);
    assert_eq!(
        buf,
        vec![0xee, 20, 0, 0, 0, 0x06, 0x0a, 0x05, 0x04, 4, 3, 2, 1, 0, 0, 0, 0, 2, 0, 1, 2]
    );
}

#[test]
fn the_length_of_a_message_is_computed() {
    let mut buf = vec![0xee, 0xee];
    let g = NfGenMsg { family: 1, version: 0, res_id: 0 };
    let start = write_header(&mut buf, 0x0a00, 1, 0, g);
    buf.extend([8, 0, 1, 0, 1, 2, 3, 4]);
    buf.extend(vec![0; 0x1_0000]);
    finalize_message(&mut buf, start).unwrap();
    assert_eq!(buf[2..6].to_vec(), (20u32 + 8 + 0x1_0000).to_le_bytes().to_vec());
    assert_eq!(buf[0..2].to_vec(), vec![0xee, 0xee]);
    assert_eq!(buf[6..8].to_vec(), vec![0x00, 0x0a]);
    assert_eq!(buf.len(), 2 + 20 + 8 + 0x1_0000);
}

#[test]
fn a_message_carries_the_attributes_of_its_object() {
    let counter = Counter::new().with_nb_bytes(3);
    let g = NfGenMsg { family: 1, version: 0, res_id: 0 };
    let mut buf = Vec::new();
    write_message(&mut buf, 0x0a12, 1, 8, g, &counter).unwrap();
    let (h, msg) = parse_nlmsg(&buf, 8, 0).unwrap();
    assert_eq!(h, NlMsgHeader { len: 32, msg_type: 0x0a12, flags: 1, seq: 8, pid: 0 });
    assert_eq!(msg, NlMsg::NfGenMsg(g, &serialize(&counter).unwrap()));
}

#[test]
fn the_type_of_a_message_names_subsystem_and_operation() {
    assert_eq!(get_operation_from_nlmsghdr_type(0x0a06), 6);
    assert_eq!(get_subsystem_from_nlmsghdr_type(0x0a06), 10);
    assert_eq!(get_operation_from_nlmsghdr_type(0xffff), 0xff);
    assert_eq!(get_subsystem_from_nlmsghdr_type(0x0010), 0);
    let table = Table::new(ProtocolFamily::Arp).with_name("t".to_string());
    let mut buf = Vec::new();
    add_or_remove(&table, &mut buf, MsgType::Add, 0).unwrap();
    let (h, _) = parse_nlmsg(&buf, 0, 0).unwrap();
    assert_eq!(get_operation_from_nlmsghdr_type(h.msg_type), NFT_MSG_NEWTABLE);
    assert_eq!(h.flags, NLM_F_REQUEST | NLM_F_ACK | NLM_F_CREATE);
    let mut buf = Vec::new();
    add_or_remove(&table, &mut buf, MsgType::Del, 0).unwrap();
    let (h, msg) = parse_nlmsg(&buf, 0, 0).unwrap();
    assert_eq!(get_operation_from_nlmsghdr_type(h.msg_type), NFT_MSG_DELTABLE);
    assert_eq!(h.flags, NLM_F_REQUEST | NLM_F_ACK);
    match msg {
        NlMsg::NfGenMsg(g, _) => assert_eq!(g.family, ProtocolFamily::Arp.to_u8()),
        _ => panic!("expected a data message"),
    }
}

#[test]
fn the_family_of_an_object_comes_from_the_family_header() {
    let rule = Rule::default().with_handle(1);
    let attrs = serialize(&rule).unwrap();
    for family in [
        ProtocolFamily::Unspec,
        ProtocolFamily::Inet,
        ProtocolFamily::Ipv4,
        ProtocolFamily::Arp,
        ProtocolFamily::NetDev,
        ProtocolFamily::Bridge,
        ProtocolFamily::Ipv6,
    ] {
        let g = NfGenMsg { family: family.to_u8(), version: 0, res_id: 0 };
        let back: Rule = decode_object(&g, &attrs).unwrap();
        assert_eq!(back, Rule::default().with_handle(1).with_family(family));
    }
    let g = NfGenMsg { family: 4, version: 0, res_id: 0 };
    assert_eq!(decode_object::<Rule>(&g, &attrs), Err(DecodeError::UnknownDiscriminant(4)));
}

#[test]
fn what_stands_after_a_message_is_not_part_of_it() {
    let table = Table::new(ProtocolFamily::Inet).with_name("t".to_string());
    let mut buf = Vec::new();
    add_or_remove(&table, &mut buf, MsgType::Add, 0).unwrap();
    let alone = parse_nlmsg(&buf, 0, 0).unwrap();
    let mut longer = buf.clone();
    longer.extend([1, 2, 3, 4, 5]);
    assert_eq!(parse_nlmsg(&longer, 0, 0).unwrap(), alone);
}
