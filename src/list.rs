use vstd::prelude::*;

use crate::bytes::{fits, le_at, lemma_le_update, Reader};
use crate::chunk::{chunk_ref_at, FileChunkReference};
use crate::error::ParseError;
use crate::log::TransactionLog;
use crate::node::{node_at, FileNode};

verus! {

/// The eight bytes that open every node list fragment.
pub const FILE_NODE_LIST_HEADER_MAGIC: u64 = 0xA4567AB1F5F7F4C4;

/// The eight bytes that close every node list fragment.
pub const FILE_NODE_LIST_FOOTER_MAGIC: u64 = 0x8BC215C38233BA4B;

/// Bytes at the end of a fragment: the next-fragment reference (12) and the footer (8).
pub const FRAGMENT_TRAILER_LEN: u64 = 20;

/// Bytes at the start of a fragment: the header magic, the list id and the
/// fragment's sequence index.
pub const FRAGMENT_HEADER_LEN: u64 = 16;

/// The fewest bytes a fragment can span: its header and its trailer.
pub const MIN_FRAGMENT_LEN: u64 = 36;

/// A node list: its id, the sequence index of its first fragment, and its nodes
/// in stream order across all fragments.
#[derive(Debug)]
pub struct FileNodeList {
    pub id: u32,
    pub fragment_sequence_index: u32,
    pub file_nodes: Vec<FileNode>,
}

/// Where the nodes of the fragment `fcr` must end: at its trailer.
pub open spec fn trailer_start(fcr: FileChunkReference) -> int {
    fcr.start + fcr.len - FRAGMENT_TRAILER_LEN
}

/// The list id and sequence index of the fragment `fcr`, once the chunk is known
/// to lie in the stream with room for its header and trailer, and to open with
/// the magic.
pub open spec fn fragment_header_at(data: Seq<u8>, fcr: FileChunkReference) -> Result<
    (u32, u32),
    ParseError,
> {
    if fcr.len < MIN_FRAGMENT_LEN || fcr.start + fcr.len > data.len() {
        Err(ParseError::ChunkOutOfRange)
    } else if le_at(data, fcr.start as int, 8) != FILE_NODE_LIST_HEADER_MAGIC {
        Err(ParseError::BadListHeaderMagic)
    } else {
        Ok((le_at(data, fcr.start + 8, 4) as u32, le_at(data, fcr.start + 12, 4) as u32))
    }
}

/// Nodes read from `p` on, appended to `acc`, until `left` more have been read or
/// `end` is reached: the nodes, the position after them, and how many are still
/// expected.
pub open spec fn nodes_scan(data: Seq<u8>, p: int, end: int, left: nat, acc: Seq<FileNode>) -> Result<
    (Seq<FileNode>, int, nat),
    ParseError,
>
    decreases left,
{
    if left == 0 || p >= end {
        Ok((acc, p, left))
    } else {
        match node_at(data, p) {
            Err(e) => Err(e),
            Ok((n, q)) => nodes_scan(data, q, end, (left - 1) as nat, acc.push(n)),
        }
    }
}

/// Whether every byte of `data` from `p` up to `end` is zero.
pub open spec fn zero_between(data: Seq<u8>, p: int, end: int) -> bool {
    forall|i: int| p <= i < end ==> data[i] == 0
}

/// How many fragments may follow the first: as many as the stream could hold
/// side by side. A longer chain must revisit a fragment.
pub open spec fn fragment_budget(data: Seq<u8>) -> nat {
    data.len() / MIN_FRAGMENT_LEN as nat
}

/// The nodes of the list whose fragment `fcr` (its header already checked) comes
/// next, appended to `acc`, with `left` nodes still expected and `budget` more
/// fragments allowed. A fragment that ends the list may hold only zero bytes
/// after its last node; one that does not must name a further fragment.
pub open spec fn fragments_scan(
    data: Seq<u8>,
    fcr: FileChunkReference,
    left: nat,
    acc: Seq<FileNode>,
    budget: nat,
) -> Result<Seq<FileNode>, ParseError>
    decreases budget,
{
    let end = trailer_start(fcr);
    match nodes_scan(data, fcr.start + FRAGMENT_HEADER_LEN, end, left, acc) {
        Err(e) => Err(e),
        Ok((nodes, p, rest)) => {
            let next = chunk_ref_at(data, end, 64, 32)->Ok_0;
            if rest == 0 && !zero_between(data, p, end) {
                Err(ParseError::UnaccountedNodes)
            } else if le_at(data, end + 12, 8) != FILE_NODE_LIST_FOOTER_MAGIC {
                Err(ParseError::BadListFooterMagic)
            } else if rest == 0 {
                Ok(nodes)
            } else if (next.start == u64::MAX && next.len == 0) || budget == 0 {
                Err(ParseError::BrokenFragmentChain)
            } else {
                match fragment_header_at(data, next) {
                    Err(e) => Err(e),
                    Ok(_) => fragments_scan(data, next, rest, nodes, (budget - 1) as nat),
                }
            }
        },
    }
}

/// The node list whose first fragment is `fcr`, its node count taken from `log`:
/// its id, its first fragment's sequence index, and its nodes.
pub open spec fn list_at(data: Seq<u8>, fcr: FileChunkReference, log: Map<u32, u32>) -> Result<
    (u32, u32, Seq<FileNode>),
    ParseError,
> {
    match fragment_header_at(data, fcr) {
        Err(e) => Err(e),
        Ok((id, index)) => {
            if !log.contains_key(id) {
                Err(ParseError::ListNotInLog)
            } else {
                match fragments_scan(data, fcr, log[id] as nat, Seq::empty(), fragment_budget(data)) {
                    Err(e) => Err(e),
                    Ok(nodes) => Ok((id, index, nodes)),
                }
            }
        },
    }
}

/// Checks the fragment `fcr` and reads its header, leaving the reader at its
/// first node.
fn read_fragment_header(fcr: &FileChunkReference, reader: &mut Reader) -> (r: Result<
    (u32, u32),
    ParseError,
>)
    ensures
        final(reader).data@ == old(reader).data@,
        r == fragment_header_at(old(reader).data@, *fcr),
        r is Ok ==> final(reader).pos == fcr.start + FRAGMENT_HEADER_LEN,
{
    let total = reader.data.len() as u64;
    if fcr.len < MIN_FRAGMENT_LEN || fcr.start > total || fcr.len > total - fcr.start {
        return Err(ParseError::ChunkOutOfRange);
    }
    reader.seek(fcr.start);
    let magic = reader.read_u64()?;
    if magic != FILE_NODE_LIST_HEADER_MAGIC {
        return Err(ParseError::BadListHeaderMagic);
    }
    let id = reader.read_u32()?;
    let fragment_sequence_index = reader.read_u32()?;
    Ok((id, fragment_sequence_index))
}

/// Whether every byte of `data` from `from` up to `to` is zero.
fn all_zero(data: &Vec<u8>, from: u64, to: u64) -> (r: bool)
    requires
        to <= data@.len(),
    ensures
        r == zero_between(data@, from as int, to as int),
{
    let n = data.len();
    if from >= to {
        return true;
    }
    assert(to <= n);
    let mut i: usize = from as usize;
    let end: usize = to as usize;
    while i < end
        invariant
            end == to,
            to <= data@.len(),
            from <= i,
            zero_between(data@, from as int, i as int),
        decreases end - i,
    {
        if data[i] != 0 {
            return false;
        }
        i = i + 1;
    }
    true
}

proof fn lemma_nodes_scan_count(data: Seq<u8>, p: int, end: int, left: nat, acc: Seq<FileNode>)
    ensures
        nodes_scan(data, p, end, left, acc) matches Ok((nodes, q, rest)) ==> rest <= left
            && nodes.len() == acc.len() + (left - rest),
    decreases left,
{
    if left > 0 && p < end {
        if let Ok((n, q)) = node_at(data, p) {
            lemma_nodes_scan_count(data, q, end, (left - 1) as nat, acc.push(n));
        }
    }
}

proof fn lemma_fragments_scan_count(
    data: Seq<u8>,
    fcr: FileChunkReference,
    left: nat,
    acc: Seq<FileNode>,
    budget: nat,
)
    ensures
        fragments_scan(data, fcr, left, acc, budget) matches Ok(nodes) ==> nodes.len() == acc.len()
            + left,
    decreases budget,
{
    let end = trailer_start(fcr);
    lemma_nodes_scan_count(data, fcr.start + FRAGMENT_HEADER_LEN, end, left, acc);
    if let Ok((nodes, p, rest)) = nodes_scan(data, fcr.start + FRAGMENT_HEADER_LEN, end, left, acc) {
        let next = chunk_ref_at(data, end, 64, 32)->Ok_0;
        if rest > 0 && budget > 0 {
            lemma_fragments_scan_count(data, next, rest, nodes, (budget - 1) as nat);
        }
    }
}

proof fn lemma_footer_fails(
    data: Seq<u8>,
    fcr: FileChunkReference,
    left: nat,
    acc: Seq<FileNode>,
    budget: nat,
)
    requires
        le_at(data, trailer_start(fcr) + 12, 8) != FILE_NODE_LIST_FOOTER_MAGIC,
    ensures
        fragments_scan(data, fcr, left, acc, budget) is Err,
{
}

/// Changing any one byte of the header magic or of the footer magic of a list's
/// first fragment, in a stream from which the list decodes, makes it fail to decode.
pub proof fn lemma_list_magic_corruption(
    data: Seq<u8>,
    fcr: FileChunkReference,
    log: Map<u32, u32>,
    i: int,
    x: u8,
)
    requires
        list_at(data, fcr, log) is Ok,
        fcr.start <= i < fcr.start + 8 || trailer_start(fcr) + 12 <= i < trailer_start(fcr) + 20,
        x != data[i],
    ensures
        list_at(data.update(i, x), fcr, log) is Err,
{
    let corrupted = data.update(i, x);
    if fcr.start <= i < fcr.start + 8 {
        let s = data.subrange(fcr.start as int, fcr.start + 8);
        assert(corrupted.subrange(fcr.start as int, fcr.start + 8) =~= s.update(i - fcr.start, x));
        lemma_le_update(s, i - fcr.start, x);
    } else {
        let at = trailer_start(fcr) + 12;
        let s = data.subrange(at, at + 8);
        assert(corrupted.subrange(at, at + 8) =~= s.update(i - at, x));
        lemma_le_update(s, i - at, x);
        if let Ok((id, _)) = fragment_header_at(corrupted, fcr) {
            if log.contains_key(id) {
                lemma_footer_fails(
                    corrupted,
                    fcr,
                    log[id] as nat,
                    Seq::empty(),
                    fragment_budget(corrupted),
                );
            }
        }
    }
}

impl FileNodeList {
    /// Reads the node list whose first fragment is `fcr`. The number of nodes comes
    /// from `transaction_log`, by the list's id; where a fragment runs out before
    /// that many nodes, the list goes on in the fragment that its trailer names,
    /// even where it added none. A chain longer than the stream could hold side by
    /// side revisits a fragment and fails.
    pub fn from_reader(
        fcr: &FileChunkReference,
        reader: &mut Reader,
        transaction_log: &TransactionLog,
    ) -> (r: Result<FileNodeList, ParseError>)
        ensures
            final(reader).data@ == old(reader).data@,
            match list_at(old(reader).data@, *fcr, transaction_log@) {
                Ok((id, index, nodes)) => r matches Ok(l) && l.id == id && l.fragment_sequence_index
                    == index && l.file_nodes@ == nodes,
                Err(e) => r matches Err(e2) && e2 == e,
            },
            r matches Ok(l) ==> transaction_log@.contains_key(l.id) && l.file_nodes@.len()
                == transaction_log@[l.id],
    {
        let ghost data = reader.data@;
        let (id, fragment_sequence_index) = read_fragment_header(fcr, reader)?;
        let expected = match transaction_log.get(id) {
            Some(n) => n,
            None => return Err(ParseError::ListNotInLog),
        };
        proof {
            lemma_fragments_scan_count(data, *fcr, expected as nat, Seq::empty(), fragment_budget(data));
        }
        // The buffer's length is a usize, so every position within it fits in a u64.
        let buffer_len = reader.data.len();
        assert(data.len() == buffer_len);
        let mut file_nodes: Vec<FileNode> = Vec::new();
        let mut left: u32 = expected;
        let mut cur: FileChunkReference = *fcr;
        let mut budget: u64 = buffer_len as u64 / MIN_FRAGMENT_LEN;
        loop
            invariant
                reader.data@ == data,
                data == old(reader).data@,
                data.len() <= u64::MAX,
                transaction_log@.contains_key(id),
                transaction_log@[id] == expected,
                fragment_header_at(data, cur) is Ok,
                reader.pos == cur.start + FRAGMENT_HEADER_LEN,
                fragments_scan(data, *fcr, expected as nat, Seq::empty(), fragment_budget(data)) == fragments_scan(
                    data,
                    cur,
                    left as nat,
                    file_nodes@,
                    budget as nat,
                ),
                list_at(data, *fcr, transaction_log@) == (match fragments_scan(data, *fcr, expected as nat, Seq::empty(), fragment_budget(data)) {
                    Err(e) => Err(e),
                    Ok(nodes) => Ok((id, fragment_sequence_index, nodes)),
                }),
                fragments_scan(data, *fcr, expected as nat, Seq::empty(), fragment_budget(data)) matches Ok(nodes) ==> nodes.len() == expected,
            decreases budget,
        {
            let end = cur.start + cur.len - FRAGMENT_TRAILER_LEN;
            let ghost nodes_before = file_nodes@;
            let fragment_left = left;
            while left > 0 && reader.pos < end
                invariant
                    reader.data@ == data,
                    data == old(reader).data@,
                    data.len() <= u64::MAX,
                    transaction_log@.contains_key(id),
                    transaction_log@[id] == expected,
                    fragment_header_at(data, cur) is Ok,
                    end == trailer_start(cur),
                    fragments_scan(data, *fcr, expected as nat, Seq::empty(), fragment_budget(data)) == fragments_scan(
                        data,
                        cur,
                        fragment_left as nat,
                        nodes_before,
                        budget as nat,
                    ),
                    list_at(data, *fcr, transaction_log@) == (match fragments_scan(data, *fcr, expected as nat, Seq::empty(), fragment_budget(data)) {
                        Err(e) => Err(e),
                        Ok(nodes) => Ok((id, fragment_sequence_index, nodes)),
                    }),
                    fragments_scan(data, *fcr, expected as nat, Seq::empty(), fragment_budget(data)) matches Ok(nodes) ==> nodes.len() == expected,
                    left <= fragment_left,
                    nodes_scan(data, cur.start + FRAGMENT_HEADER_LEN, end as int, fragment_left as nat, nodes_before)
                        == nodes_scan(data, reader.pos as int, end as int, left as nat, file_nodes@),
                decreases left,
            {
                let node = FileNode::from_reader(reader)?;
                file_nodes.push(node);
                left = left - 1;
            }
            let last = reader.stream_position();
            if left == 0 && !all_zero(&reader.data, last, end) {
                return Err(ParseError::UnaccountedNodes);
            }
            reader.seek(end);
            let next = FileChunkReference::from_reader(reader, 64, 32)?;
            let footer = reader.read_u64()?;
            if footer != FILE_NODE_LIST_FOOTER_MAGIC {
                return Err(ParseError::BadListFooterMagic);
            }
            if left == 0 {
                return Ok(FileNodeList { id, fragment_sequence_index, file_nodes });
            }
            if next.is_nil() || budget == 0 {
                return Err(ParseError::BrokenFragmentChain);
            }
            budget = budget - 1;
            let _ = read_fragment_header(&next, reader)?;
            cur = next;
        }
    }
}

} // verus!
