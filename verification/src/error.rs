//! Error types shared by the encoders, the decoders and the builders.

use vstd::prelude::*;

verus! {

/// Why a byte buffer could not be decoded.
#[derive(Clone, Copy, Debug, PartialEq, Eq, Structural)]
pub enum DecodeError {
    /// Fewer bytes are left than an attribute header needs.
    BufTooSmall,
    /// An attribute header claims a length shorter than the header itself.
    InvalidAttributeLength,
    /// An attribute header claims a length that exceeds the remaining buffer.
    AttributeTooLong,
    /// The padding after an attribute would end past the buffer.
    MissingPadding,
    /// A fixed-width field has a payload of another width.
    InvalidDataSize,
    /// A text field does not hold valid UTF-8.
    InvalidUtf8,
    /// An enumerated field holds a number that names no variant.
    UnknownDiscriminant(u32),
    /// The data of an expression came before its kind name.
    MissingExpressionName,
    /// An expression names a kind that this library does not know.
    UnknownExpression,
    /// The buffer is shorter than a message header, or than the message claims.
    NlMsgTooSmall,
    /// A control message of a type that is neither noop, error nor done.
    UnsupportedType(u16),
    /// A data message that belongs to another netfilter subsystem.
    InvalidSubsystem(u8),
    /// A data message with an unknown nfnetlink version.
    InvalidVersion(u8),
    /// A message that answers another request.
    BadSequenceNumber(u32),
    /// A message addressed to another socket.
    BadPortId(u32),
}

/// Why an object could not be built or encoded.
#[derive(Clone, Copy, Debug, PartialEq, Eq, Structural)]
pub enum BuilderError {
    /// The chain a rule is created in has no name or no table yet.
    MissingChainInformationError,
    /// The set a lookup refers to has no name or no id yet.
    MissingSetInformationError,
    /// An attribute payload is longer than an attribute header can say.
    AttributeTooLarge,
    /// A message is longer than a message header can say.
    MessageTooLarge,
    /// A batch without any operation was finalized.
    EmptyBatch,
}

} // verus!
