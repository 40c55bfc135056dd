//! Decoder for the OneStore container format: the fixed file header, the
//! transaction log and the (possibly fragmented) file node lists.

pub mod bytes;
pub mod chunk;
pub mod error;
pub mod guid;
pub mod header;
pub mod list;
pub mod log;
pub mod node;
pub mod store;

use vstd::prelude::*;

use crate::bytes::Reader;
use crate::chunk::FileChunkReference;
use crate::error::ParseError;

verus! {

/// A structure read from the chunk of the stream that `fcr` locates.
pub trait FromFileChunk: Sized {
    fn from_reader(fcr: &FileChunkReference, reader: &mut Reader) -> (r: Result<Self, ParseError>)
        ensures
            final(reader).data@ == old(reader).data@,
    ;
}

/// A structure read from the chunk of the stream that `fcr` locates, whose number
/// of parts, `len`, is recorded elsewhere.
pub trait ListFromFileChunk: Sized {
    fn from_reader(fcr: &FileChunkReference, reader: &mut Reader, len: u64) -> (r: Result<
        Self,
        ParseError,
    >)
        ensures
            final(reader).data@ == old(reader).data@,
    ;
}

} // verus!
