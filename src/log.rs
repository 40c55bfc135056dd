use vstd::prelude::*;

use std::collections::HashMap;

use crate::bytes::{fits, le_at, Reader};
use crate::chunk::FileChunkReference;
use crate::error::ParseError;
use crate::ListFromFileChunk;

verus! {

broadcast use vstd::std_specs::hash::group_hash_axioms;

/// One eight-byte entry of the transaction log. An entry whose `src_id` is 1 is a
/// sentinel that closes a transaction.
#[derive(Clone, Copy, Debug, PartialEq, Eq, Structural)]
pub struct TransactionEntry {
    pub src_id: u32,
    pub transaction_entry_switch: u32,
}

/// The id that marks a sentinel entry.
pub const SENTINEL_SRC_ID: u32 = 1;

/// Bytes at the end of a transaction log fragment that hold no entries.
pub const LOG_TRAILER_LEN: u64 = 12;

impl TransactionEntry {
    pub fn from_reader(reader: &mut Reader) -> (r: Result<TransactionEntry, ParseError>)
        ensures
            final(reader).data@ == old(reader).data@,
            r is Ok <==> fits(old(reader).data@, old(reader).pos as int, 8),
            r matches Ok(e) ==> e.src_id == le_at(old(reader).data@, old(reader).pos as int, 4)
                && e.transaction_entry_switch == le_at(
                old(reader).data@,
                old(reader).pos + 4,
                4,
            ) && final(reader).pos == old(reader).pos + 8,
            r matches Err(e) ==> e == ParseError::UnexpectedEof,
    {
        let src_id = reader.read_u32()?;
        let transaction_entry_switch = reader.read_u32()?;
        Ok(TransactionEntry { src_id, transaction_entry_switch })
    }
}

/// For each node list id, the number of nodes that the list holds.
#[derive(Debug)]
pub struct TransactionLog {
    counts: HashMap<u32, u32>,
}

impl View for TransactionLog {
    type V = Map<u32, u32>;

    closed spec fn view(&self) -> Map<u32, u32> {
        self.counts@
    }
}

/// What is left of reading the log from `p` on, with `left` transactions still to
/// close, the entries so far in `m`, and `last_sentinel` telling whether the last
/// entry read was a sentinel.
pub open spec fn log_scan(
    data: Seq<u8>,
    p: int,
    end: int,
    left: nat,
    m: Map<u32, u32>,
    last_sentinel: bool,
) -> Result<Map<u32, u32>, ParseError>
    decreases (if p < end {
        end - p
    } else {
        0
    }),
{
    if left > 0 && p < end {
        if !fits(data, p, 8) {
            Err(ParseError::UnexpectedEof)
        } else {
            let src_id = le_at(data, p, 4) as u32;
            let switch = le_at(data, p + 4, 4) as u32;
            if src_id == SENTINEL_SRC_ID {
                log_scan(data, p + 8, end, (left - 1) as nat, m, true)
            } else {
                log_scan(data, p + 8, end, left, m.insert(src_id, switch), false)
            }
        }
    } else if !last_sentinel {
        Err(ParseError::MissingSentinel)
    } else if left > 0 {
        Err(ParseError::UnsupportedLogFragment)
    } else {
        Ok(m)
    }
}

/// The transaction log held in the chunk `fcr`, closing `transactions` transactions.
pub open spec fn log_at(data: Seq<u8>, fcr: FileChunkReference, transactions: nat) -> Result<
    Map<u32, u32>,
    ParseError,
> {
    if fcr.len < LOG_TRAILER_LEN || fcr.start + fcr.len > u64::MAX {
        Err(ParseError::ChunkOutOfRange)
    } else {
        log_scan(
            data,
            fcr.start as int,
            fcr.start + fcr.len - LOG_TRAILER_LEN,
            transactions,
            Map::empty(),
            true,
        )
    }
}

impl ListFromFileChunk for TransactionLog {
    /// Reads the transaction log in `fcr`, entry by entry, until `len` transactions
    /// are closed or the entries of the chunk run out. A later entry for an id
    /// overrides an earlier one.
    fn from_reader(fcr: &FileChunkReference, reader: &mut Reader, len: u64) -> (r: Result<
        TransactionLog,
        ParseError,
    >)
        ensures
            match log_at(old(reader).data@, *fcr, len as nat) {
                Ok(m) => r matches Ok(log) && log@ == m,
                Err(e) => r == Err::<TransactionLog, ParseError>(e),
            },
    {
        if fcr.len < LOG_TRAILER_LEN || fcr.len > u64::MAX - fcr.start {
            return Err(ParseError::ChunkOutOfRange);
        }
        let end = fcr.start + fcr.len - LOG_TRAILER_LEN;
        reader.seek(fcr.start);
        let ghost data = reader.data@;
        let mut counts: HashMap<u32, u32> = HashMap::new();
        let mut left: u64 = len;
        let mut last_sentinel = true;
        while left > 0 && reader.pos < end
            invariant
                reader.data@ == data,
                data == old(reader).data@,
                log_at(data, *fcr, len as nat) == log_scan(
                    data,
                    reader.pos as int,
                    end as int,
                    left as nat,
                    counts@,
                    last_sentinel,
                ),
            decreases (if reader.pos < end {
                end - reader.pos
            } else {
                0
            }),
        {
            let entry = TransactionEntry::from_reader(reader)?;
            if entry.src_id == SENTINEL_SRC_ID {
                left = left - 1;
                last_sentinel = true;
            } else {
                counts.insert(entry.src_id, entry.transaction_entry_switch);
                last_sentinel = false;
            }
        }
        if !last_sentinel {
            return Err(ParseError::MissingSentinel);
        }
        if left > 0 {
            return Err(ParseError::UnsupportedLogFragment);
        }
        Ok(TransactionLog { counts })
    }

}

impl TransactionLog {
    /// The number of nodes recorded for the list `id`, if any.
    pub fn get(&self, id: u32) -> (r: Option<u32>)
        ensures
            r == (if self@.contains_key(id) {
                Some(self@[id])
            } else {
                None
            }),
    {
        match self.counts.get(&id) {
            Some(n) => Some(*n),
            None => None,
        }
    }

    /// The number of list ids recorded.
    pub fn len(&self) -> (r: usize)
        ensures
            r == self@.len(),
    {
        self.counts.len()
    }
}

} // verus!
