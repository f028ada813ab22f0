//! Numbers of the kernel interface: message types, flags and attribute codes.

use vstd::prelude::*;

verus! {

/// Size of a netlink message header.
pub const NLMSG_HDRLEN: usize = 16;

/// Size of the nfnetlink header that follows the message header.
pub const NFGENMSG_HDRLEN: usize = 4;

/// Size of an attribute header.
pub const NLA_HDRLEN: usize = 4;

/// Every message and attribute starts at a multiple of this.
pub const NLA_ALIGNTO: usize = 4;

/// Longest payload whose attribute length still fits the 16-bit length field.
pub const NLA_MAX_PAYLOAD: usize = 65531;

/// Flag in an attribute's type field: the payload is a list of attributes.
pub const NLA_F_NESTED: u16 = 0x8000;

/// Flag in an attribute's type field: the payload is in network byte order.
pub const NLA_F_NET_BYTEORDER: u16 = 0x4000;

/// The bits of an attribute's type field that hold the code.
pub const NLA_TYPE_MASK: u16 = 0x3fff;

pub const NLMSG_NOOP: u16 = 1;

pub const NLMSG_ERROR: u16 = 2;

pub const NLMSG_DONE: u16 = 3;

pub const NLMSG_MIN_TYPE: u16 = 0x10;

pub const NLM_F_REQUEST: u16 = 0x1;

pub const NLM_F_ACK: u16 = 0x4;

pub const NLM_F_DUMP_INTR: u16 = 0x10;

pub const NLM_F_ROOT: u16 = 0x100;

pub const NLM_F_MATCH: u16 = 0x200;

pub const NLM_F_CREATE: u16 = 0x400;

pub const NLM_F_APPEND: u16 = 0x800;

pub const NFNETLINK_V0: u8 = 0;

pub const NFNL_SUBSYS_NFTABLES: u8 = 10;

pub const NFNL_MSG_BATCH_BEGIN: u16 = 0x10;

pub const NFNL_MSG_BATCH_END: u16 = 0x11;

pub const NFT_MSG_NEWTABLE: u8 = 0;

pub const NFT_MSG_GETTABLE: u8 = 1;

pub const NFT_MSG_DELTABLE: u8 = 2;

pub const NFT_MSG_NEWCHAIN: u8 = 3;

pub const NFT_MSG_GETCHAIN: u8 = 4;

pub const NFT_MSG_DELCHAIN: u8 = 5;

pub const NFT_MSG_NEWRULE: u8 = 6;

pub const NFT_MSG_GETRULE: u8 = 7;

pub const NFT_MSG_DELRULE: u8 = 8;

pub const NFT_MSG_NEWSET: u8 = 9;

pub const NFT_MSG_GETSET: u8 = 10;

pub const NFT_MSG_DELSET: u8 = 11;

pub const NFT_MSG_NEWSETELEM: u8 = 12;

pub const NFT_MSG_GETSETELEM: u8 = 13;

pub const NFT_MSG_DELSETELEM: u8 = 14;

pub const NFTA_LIST_ELEM: u16 = 1;

pub const NFTA_TABLE_NAME: u16 = 1;

pub const NFTA_TABLE_FLAGS: u16 = 2;

pub const NFTA_TABLE_HANDLE: u16 = 4;

pub const NFTA_TABLE_USERDATA: u16 = 6;

pub const NFTA_CHAIN_TABLE: u16 = 1;

pub const NFTA_CHAIN_HANDLE: u16 = 2;

pub const NFTA_CHAIN_NAME: u16 = 3;

pub const NFTA_CHAIN_HOOK: u16 = 4;

pub const NFTA_CHAIN_POLICY: u16 = 5;

pub const NFTA_CHAIN_TYPE: u16 = 7;

pub const NFTA_HOOK_HOOKNUM: u16 = 1;

pub const NFTA_HOOK_PRIORITY: u16 = 2;

pub const NFTA_RULE_TABLE: u16 = 1;

pub const NFTA_RULE_CHAIN: u16 = 2;

pub const NFTA_RULE_HANDLE: u16 = 3;

pub const NFTA_RULE_EXPRESSIONS: u16 = 4;

pub const NFTA_RULE_POSITION: u16 = 6;

pub const NFTA_RULE_USERDATA: u16 = 7;

pub const NFTA_RULE_ID: u16 = 9;

pub const NFTA_SET_TABLE: u16 = 1;

pub const NFTA_SET_NAME: u16 = 2;

pub const NFTA_SET_FLAGS: u16 = 3;

pub const NFTA_SET_KEY_TYPE: u16 = 4;

pub const NFTA_SET_KEY_LEN: u16 = 5;

pub const NFTA_SET_ID: u16 = 10;

pub const NFTA_SET_USERDATA: u16 = 13;

pub const NFTA_SET_ELEM_KEY: u16 = 1;

pub const NFTA_SET_ELEM_LIST_TABLE: u16 = 1;

pub const NFTA_SET_ELEM_LIST_SET: u16 = 2;

pub const NFTA_SET_ELEM_LIST_ELEMENTS: u16 = 3;

pub const NFTA_SET_ELEM_LIST_SET_ID: u16 = 4;

pub const NFTA_EXPR_NAME: u16 = 1;

pub const NFTA_EXPR_DATA: u16 = 2;

pub const NFTA_DATA_VALUE: u16 = 1;

pub const NFTA_DATA_VERDICT : u16 = 2;

pub const NFTA_VERDICT_CODE: u16 = 1;

pub const NFTA_VERDICT_CHAIN: u16 = 2;

pub const NFTA_VERDICT_CHAIN_ID: u16 = 3;

pub const NFTA_BITWISE_SREG: u16 = 1;

pub const NFTA_BITWISE_DREG: u16 = 2;

pub const NFTA_BITWISE_LEN: u16 = 3;

pub const NFTA_BITWISE_MASK: u16 = 4;

pub const NFTA_BITWISE_XOR: u16 = 5;

pub const NFTA_CMP_SREG: u16 = 1;

pub const NFTA_CMP_OP: u16 = 2;

pub const NFTA_CMP_DATA: u16 = 3;

pub const NFTA_COUNTER_BYTES: u16 = 1;

pub const NFTA_COUNTER_PACKETS: u16 = 2;

pub const NFTA_CT_DREG: u16 = 1;

pub const NFTA_CT_KEY: u16 = 2;

pub const NFTA_CT_DIRECTION: u16 = 3;

pub const NFTA_CT_SREG: u16 = 4;

pub const NFTA_IMMEDIATE_DREG: u16 = 1;

pub const NFTA_IMMEDIATE_DATA: u16 = 2;

pub const NFTA_LOG_GROUP: u16 = 1;

pub const NFTA_LOG_PREFIX: u16 = 2;

pub const NFTA_LOOKUP_SET: u16 = 1;

pub const NFTA_LOOKUP_SREG: u16 = 2;

pub const NFTA_LOOKUP_DREG: u16 = 3;

pub const NFTA_LOOKUP_SET_ID: u16 = 4;

pub const NFTA_MASQ_FLAGS: u16 = 1;

pub const NFTA_MASQ_REG_PROTO_MIN: u16 = 2;

pub const NFTA_MASQ_REG_PROTO_MAX: u16 = 3;

pub const NFTA_META_DREG: u16 = 1;

pub const NFTA_META_KEY: u16 = 2;

pub const NFTA_META_SREG: u16 = 3;

pub const NFTA_NAT_TYPE: u16 = 1;

pub const NFTA_NAT_FAMILY: u16 = 2;

pub const NFTA_NAT_REG_ADDR_MIN: u16 = 3;

pub const NFTA_NAT_REG_PROTO_MIN: u16 = 5;

pub const NFTA_PAYLOAD_DREG: u16 = 1;

pub const NFTA_PAYLOAD_BASE: u16 = 2;

pub const NFTA_PAYLOAD_OFFSET: u16 = 3;

pub const NFTA_PAYLOAD_LEN: u16 = 4;

pub const NFTA_RANGE_SREG: u16 = 1;

pub const NFTA_RANGE_OP: u16 = 2;

pub const NFTA_RANGE_FROM_DATA: u16 = 3;

pub const NFTA_RANGE_TO_DATA: u16 = 4;

pub const NFTA_REJECT_TYPE: u16 = 1;

pub const NFTA_REJECT_ICMP_CODE: u16 = 2;

pub const NFT_REG_VERDICT : u32 = 0;

pub const NFT_REG_1: u32 = 1;

pub const NFT_REG_2: u32 = 2;

pub const NFT_REG_3: u32 = 3;

pub const NFT_REG_4: u32 = 4;

pub const NFT_CMP_EQ: u32 = 0;

pub const NFT_CMP_NEQ: u32 = 1;

pub const NFT_CMP_LT: u32 = 2;

pub const NFT_CMP_LTE: u32 = 3;

pub const NFT_CMP_GT: u32 = 4;

pub const NFT_CMP_GTE: u32 = 5;

pub const NF_DROP: u32 = 0;

pub const NF_ACCEPT: u32 = 1;

pub const NF_QUEUE: u32 = 3;

pub const NFT_CONTINUE: u32 = 0xffff_ffff;

pub const NFT_BREAK: u32 = 0xffff_fffe;

pub const NFT_JUMP: u32 = 0xffff_fffd;

pub const NFT_GOTO: u32 = 0xffff_fffc;

pub const NFT_RETURN: u32 = 0xffff_fffb;

pub const NFT_NAT_SNAT: u32 = 0;

pub const NFT_NAT_DNAT: u32 = 1;

pub const NFT_CT_STATE: u32 = 0;

pub const NFT_CT_DIRECTION: u32 = 1;

pub const NFT_CT_STATUS: u32 = 2;

pub const NFT_CT_MARK: u32 = 3;

pub const NFT_META_LEN: u32 = 0;

pub const NFT_META_PROTOCOL: u32 = 1;

pub const NFT_META_PRIORITY: u32 = 2;

pub const NFT_META_MARK: u32 = 3;

pub const NFT_META_IIF: u32 = 4;

pub const NFT_META_OIF: u32 = 5;

pub const NFT_META_IIFNAME: u32 = 6;

pub const NFT_META_OIFNAME: u32 = 7;

pub const NFT_META_NFPROTO: u32 = 15;

pub const NFT_META_L4PROTO: u32 = 16;

pub const NFT_PAYLOAD_LL_HEADER: u32 = 0;

pub const NFT_PAYLOAD_NETWORK_HEADER: u32 = 1;

pub const NFT_PAYLOAD_TRANSPORT_HEADER: u32 = 2;

pub const NFT_REJECT_ICMP_UNREACH: u32 = 0;

pub const NFT_REJECT_TCP_RST: u32 = 1;

pub const NFT_REJECT_ICMPX_UNREACH: u32 = 2;

pub const NFT_REJECT_ICMPX_NO_ROUTE: u8 = 0;

pub const NFT_REJECT_ICMPX_PORT_UNREACH: u8 = 1;

pub const NFT_REJECT_ICMPX_HOST_UNREACH: u8 = 2;

pub const NFT_REJECT_ICMPX_ADMIN_PROHIBITED: u8 = 3;

pub const NF_INET_PRE_ROUTING: u32 = 0;

pub const NF_INET_LOCAL_IN: u32 = 1;

pub const NF_INET_FORWARD: u32 = 2;

pub const NF_INET_LOCAL_OUT: u32 = 3;

pub const NF_INET_POST_ROUTING: u32 = 4;

pub const NFPROTO_UNSPEC: u8 = 0;

pub const NFPROTO_INET: u8 = 1;

pub const NFPROTO_IPV4: u8 = 2;

pub const NFPROTO_ARP: u8 = 3;

pub const NFPROTO_NETDEV: u8 = 5;

pub const NFPROTO_BRIDGE: u8 = 7;

pub const NFPROTO_IPV6: u8 = 10;

} // verus!
