//! Netlink encoding and decoding of the packet-filter object model: tables,
//! chains, rules, sets and the expressions a rule is made of, with the
//! batched transaction format and the reading of the kernel's answers.
//!
//! The library computes and decides; it never touches a socket. Whoever owns
//! the socket sends the bytes that the library has encoded and hands it the
//! bytes that were received.
//!
//! - [`bytes`] and [`attr`]: integers as bytes, and the attribute stream.
//! - [`schema`], [`field`] and [`list`]: what all wire objects have in
//!   common, the types of their fields, and lists of them.
//! - [`data`] and [`expr`]: operands, and the expressions of a rule.
//! - [`table`], [`chain`], [`rule`] and [`set`]: the objects that the kernel
//!   keeps.
//! - [`nlmsg`]: the message envelope.
//! - [`batch`] and [`query`]: transactions, and dumps of the kernel's state.
//!
//! Every function states what it returns over plain mathematical models
//! (byte sequences, integers, model structs), and the encoders and decoders
//! are proved to be inverse to each other.

pub mod attr;
pub mod batch;
pub mod bytes;
pub mod chain;
pub mod data;
pub mod error;
pub mod expr;
pub mod family;
pub mod field;
pub mod list;
pub mod nlmsg;
pub mod query;
pub mod rule;
pub mod schema;
pub mod set;
pub mod sys;
pub mod table;
pub mod util;

pub use batch::{Batch, FinalizedBatch};
pub use chain::{Chain, ChainPolicy, Hook, HookClass};
pub use error::{BuilderError, DecodeError};
pub use family::{MsgType, ProtocolFamily};
pub use rule::Rule;
pub use set::{NftSet, SetElement, SetElementList};
pub use table::Table;
