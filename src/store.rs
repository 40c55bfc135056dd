use vstd::prelude::*;

use crate::bytes::Reader;
use crate::chunk::FileChunkReference;
use crate::error::ParseError;
use crate::header::{header_at, OneNoteFileHeader};
use crate::list::{list_at, FileNodeList};
use crate::log::{log_at, TransactionLog};
use crate::node::FileNode;
use crate::{FromFileChunk, ListFromFileChunk};

verus! {

/// Where the header lies: the first 1024 bytes of the file.
pub const HEADER_CHUNK_LEN: u64 = 1024;

/// The top of a decoded container: its header, its transaction log, and its root
/// node list, from which the caller reads further lists on demand.
pub struct OneStore {
    pub header: OneNoteFileHeader,
    pub transaction_log: TransactionLog,
    pub root: FileNodeList,
}

/// The header, transaction log and root list (id, sequence index, nodes) of the
/// container held in `data`.
pub open spec fn store_at(data: Seq<u8>) -> Result<
    (OneNoteFileHeader, Map<u32, u32>, (u32, u32, Seq<FileNode>)),
    ParseError,
> {
    match header_at(data, FileChunkReference { start: 0, len: HEADER_CHUNK_LEN }) {
        Err(e) => Err(e),
        Ok(h) => match log_at(data, h.transaction_log, h.transactions_in_log as nat) {
            Err(e) => Err(e),
            Ok(log) => match list_at(data, h.file_node_list_root, log) {
                Err(e) => Err(e),
                Ok(root) => Ok((h, log, root)),
            },
        },
    }
}

impl OneStore {
    /// Reads the header at the start of the stream, then the transaction log it
    /// locates, then the root node list, counted by that log. The first error ends
    /// the parse.
    pub fn parse(reader: &mut Reader) -> (r: Result<OneStore, ParseError>)
        ensures
            final(reader).data@ == old(reader).data@,
            match store_at(old(reader).data@) {
                Ok((h, log, (id, index, nodes))) => r matches Ok(s) && s.header == h
                    && s.transaction_log@ == log && s.root.id == id
                    && s.root.fragment_sequence_index == index && s.root.file_nodes@ == nodes,
                Err(e) => r matches Err(e2) && e2 == e,
            },
    {
        let start_of_file = FileChunkReference { start: 0, len: HEADER_CHUNK_LEN };
        let header = OneNoteFileHeader::from_reader(&start_of_file, reader)?;
        let transaction_log = TransactionLog::from_reader(
            &header.transaction_log,
            reader,
            header.transactions_in_log as u64,
        )?;
        let root = FileNodeList::from_reader(&header.file_node_list_root, reader, &transaction_log)?;
        Ok(OneStore { header, transaction_log, root })
    }
}

} // verus!
