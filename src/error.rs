use vstd::prelude::*;

verus! {

/// Every way in which decoding can fail.
#[derive(Clone, Copy, Debug, PartialEq, Eq, Structural)]
pub enum ParseError {
    /// A read went past the end of the byte stream.
    UnexpectedEof,
    /// A chunk reference field width other than 8, 16, 32 or 64 bits was asked for.
    UnsupportedWidth,
    /// A node list chunk cannot hold its header and trailer, or lies past the end
    /// of the stream.
    ChunkOutOfRange,
    /// A node list fragment does not start with the header magic.
    BadListHeaderMagic,
    /// A node list fragment does not end with the footer magic.
    BadListFooterMagic,
    /// A file node header names a node type outside the known set.
    UnknownNodeType,
    /// A file node header names a base type outside the known set.
    UnknownBaseType,
    /// A node list id has no entry in the transaction log.
    ListNotInLog,
    /// Non-zero bytes follow the last node that the transaction log accounts for.
    UnaccountedNodes,
    /// More nodes are expected, but no further fragment is named, or the chain of
    /// fragments is longer than the stream could hold without repeating one.
    BrokenFragmentChain,
    /// The transaction log does not end with a sentinel entry.
    MissingSentinel,
    /// The transaction log continues in a further fragment, which is not supported.
    UnsupportedLogFragment,
    /// The file type GUID is neither of the two known container types.
    BadFileType,
    /// The legacy file version GUID is not nil.
    LegacyFileVersionNotNil,
    /// The file format GUID is not the known one.
    BadFileFormat,
    /// A "code that wrote this file" version does not match the file type.
    BadCodeVersion,
    /// The legacy free chunk list reference is not zero.
    LegacyFreeChunkListNotZero,
    /// The legacy transaction log reference is not nil.
    LegacyTransactionLogNotNil,
    /// The header records no transactions.
    NoTransactions,
    /// The legacy expected file length is not zero.
    LegacyExpectedFileLengthNotZero,
    /// The reserved placeholder is not zero.
    PlaceholderNotZero,
    /// The legacy root node list reference is not nil.
    LegacyRootListNotNil,
}

} // verus!
