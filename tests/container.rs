use onestore::bytes::Reader;
use onestore::chunk::FileChunkReference;
use onestore::error::ParseError;
use onestore::header::{OneNoteFileHeader, OneNoteFileType, FILE_TYPE_ONE, FILE_TYPE_ONETOC2, VALID_FILE_FORMAT};
use onestore::list::{FileNodeList, FILE_NODE_LIST_FOOTER_MAGIC, FILE_NODE_LIST_HEADER_MAGIC};
use onestore::log::TransactionLog;
use onestore::node::{BaseType, FileType};
use onestore::store::OneStore;
use onestore::{FromFileChunk, ListFromFileChunk};

const ONE: &str = "7B5C52E4-D88C-4DA7-AEB1-5378D02996D3";
const ONETOC2: &str = "43FF2FA1-EFD9-4C76-9EE2-10EA5722765F";
const FORMAT: &str = "109ADD3F-911B-49F5-A5D0-1791EDC8AED8";

const LOG_AT: u64 = 1024;
const ROOT_AT: u64 = 1100;

fn guid_bytes(s: &str) -> [u8; 16] {
    uuid::Uuid::parse_str(s).unwrap().to_bytes_le()
}

fn put(buf: &mut Vec<u8>, at: usize, bytes: &[u8]) {
    if buf.len() < at + bytes.len() {
        buf.resize(at + bytes.len(), 0);
    }
    buf[at..at + bytes.len()].copy_from_slice(bytes);
}

fn put_ref(buf: &mut Vec<u8>, at: usize, start: u64, len: u32) {
    put(buf, at, &start.to_le_bytes());
    put(buf, at + 8, &len.to_le_bytes());
}

/// A 1024-byte header of the given type, with one transaction, whose log and
/// root list references point at the given chunks.
fn header_bytes(type_guid: &str, code: u32, log: (u64, u32), root: (u64, u32)) -> Vec<u8> {
    let mut b = vec![0u8; 1024];
    put(&mut b, 0, &guid_bytes(type_guid));
    put(&mut b, 16, &guid_bytes("11111111-2222-3333-4444-555555555555"));
    put(&mut b, 48, &guid_bytes(FORMAT));
    for k in 0..4 {
        put(&mut b, 64 + 4 * k, &code.to_le_bytes());
    }
    put(&mut b, 88, &0xFFFF_FFFFu32.to_le_bytes());
    put(&mut b, 96, &1u32.to_le_bytes());
    put(&mut b, 112, &0xFFFF_FFFFu32.to_le_bytes());
    put(&mut b, 128, &guid_bytes("AAAAAAAA-BBBB-CCCC-DDDD-EEEEEEEEEEEE"));
    put_ref(&mut b, 148, 0, 0);
    put_ref(&mut b, 160, log.0, log.1);
    put_ref(&mut b, 172, root.0, root.1);
    put_ref(&mut b, 184, 0, 0);
    put(&mut b, 196, &4096u64.to_le_bytes());
    put(&mut b, 204, &17u64.to_le_bytes());
    put(&mut b, 212, &guid_bytes("01020304-0506-0708-090A-0B0C0D0E0F10"));
    put(&mut b, 228, &9u64.to_le_bytes());
    b
}

/// A node header word: type id, declared size, start and length formats, base type.
fn node_word(id: u32, size: u32, stp: u32, cb: u32, base: u32) -> [u8; 4] {
    (id | (size << 10) | (stp << 23) | (cb << 25) | (base << 27)).to_le_bytes()
}

/// A one-fragment list at `at` with the given id and nodes (raw bytes each), the
/// trailer right after them, naming `next` as the next fragment.
fn fragment(buf: &mut Vec<u8>, at: usize, id: u32, index: u32, nodes: &[Vec<u8>], pad: usize, next: (u64, u32)) -> u64 {
    put(buf, at, &FILE_NODE_LIST_HEADER_MAGIC.to_le_bytes());
    put(buf, at + 8, &id.to_le_bytes());
    put(buf, at + 12, &index.to_le_bytes());
    let mut p = at + 16;
    for n in nodes {
        put(buf, p, n);
        p += n.len();
    }
    put(buf, p, &vec![0u8; pad]);
    p += pad;
    put_ref(buf, p, next.0, next.1);
    put(buf, p + 12, &FILE_NODE_LIST_FOOTER_MAGIC.to_le_bytes());
    (p + 20 - at) as u64
}

fn manifest_root_node() -> Vec<u8> {
    let mut n = node_word(0x04, 24, 0, 0, 0).to_vec();
    n.extend_from_slice(&[0u8; 20]);
    n
}

/// The minimal container: header of type One with one transaction, a log
/// holding {src 7: 3} and a sentinel, and a root list 7 of three manifest roots.
fn minimal_container() -> Vec<u8> {
    let mut b = header_bytes(ONE, 0x2A, (LOG_AT, 28), (ROOT_AT, 0));
    put(&mut b, LOG_AT as usize, &7u32.to_le_bytes());
    put(&mut b, LOG_AT as usize + 4, &3u32.to_le_bytes());
    put(&mut b, LOG_AT as usize + 8, &1u32.to_le_bytes());
    put(&mut b, LOG_AT as usize + 12, &0u32.to_le_bytes());
    put(&mut b, LOG_AT as usize + 16, &[0u8; 12]);
    let nodes = vec![manifest_root_node(), manifest_root_node(), manifest_root_node()];
    let len = fragment(&mut b, ROOT_AT as usize, 7, 5, &nodes, 0, (u64::MAX, 0));
    put_ref(&mut b, 172, ROOT_AT, len as u32);
    b
}

fn header_of(bytes: Vec<u8>) -> Result<OneNoteFileHeader, ParseError> {
    let mut reader = Reader::new(bytes);
    OneNoteFileHeader::from_reader(&FileChunkReference { start: 0, len: 1024 }, &mut reader)
}

#[test]
fn minimal_container_decodes() {
    let mut reader = Reader::new(minimal_container());
    let store = OneStore::parse(&mut reader).unwrap();
    assert_eq!(store.header.file_type, OneNoteFileType::One);
    assert_eq!(store.header.transactions_in_log, 1);
    assert_eq!(store.transaction_log.len(), 1);
    assert_eq!(store.transaction_log.get(7), Some(3));
    assert_eq!(store.root.id, 7);
    assert_eq!(store.root.fragment_sequence_index, 5);
    assert_eq!(store.root.file_nodes.len(), 3);
    for n in &store.root.file_nodes {
        assert_eq!(n.base_type, BaseType::NoReference);
        assert_eq!(n.file_type, FileType::ObjectSpaceManifestRoot);
        assert_eq!(n.size, 24);
    }
    // A node without a reference points just past its own header word.
    assert_eq!(store.root.file_nodes[0].file_chunk_ref, FileChunkReference { start: ROOT_AT + 20, len: 0 });
    assert_eq!(store.root.file_nodes[2].file_chunk_ref.start, ROOT_AT + 16 + 48 + 4);
}

#[test]
fn corrupted_root_footer_fails_whole_parse() {
    let clean = minimal_container();
    let footer_at = ROOT_AT as usize + 16 + 72 + 12;
    for k in 0..8 {
        let mut bytes = clean.clone();
        bytes[footer_at + k] ^= 0x01;
        let mut reader = Reader::new(bytes);
        assert!(matches!(OneStore::parse(&mut reader), Err(ParseError::BadListFooterMagic)));
        // The header before it still decodes as it did.
        let mut again = bytes_with_flip(&clean, footer_at + k);
        let header = OneNoteFileHeader::from_reader(&FileChunkReference { start: 0, len: 1024 }, &mut again);
        assert_eq!(header.unwrap().file_type, OneNoteFileType::One);
    }
}

fn bytes_with_flip(clean: &[u8], at: usize) -> Reader {
    let mut b = clean.to_vec();
    b[at] ^= 0x01;
    Reader::new(b)
}

#[test]
fn corrupted_root_header_magic_fails() {
    let clean = minimal_container();
    for k in 0..8 {
        let mut bytes = clean.clone();
        bytes[ROOT_AT as usize + k] ^= 0x80;
        let mut reader = Reader::new(bytes);
        assert!(matches!(OneStore::parse(&mut reader), Err(ParseError::BadListHeaderMagic)));
    }
}

#[test]
fn guid_constants_match_text_forms() {
    assert_eq!(FILE_TYPE_ONE, uuid::Uuid::parse_str(ONE).unwrap().as_u128());
    assert_eq!(FILE_TYPE_ONETOC2, uuid::Uuid::parse_str(ONETOC2).unwrap().as_u128());
    assert_eq!(VALID_FILE_FORMAT, uuid::Uuid::parse_str(FORMAT).unwrap().as_u128());
}

#[test]
fn header_fields_decode() {
    let h = header_of(minimal_container()).unwrap();
    assert_eq!(h.file_guid.value, 0x11111111_2222_3333_4444_555555555555);
    assert_eq!(h.ancestor_guid.value, 0xAAAAAAAA_BBBB_CCCC_DDDD_EEEEEEEEEEEE);
    assert_eq!(h.file_version.value, 0x01020304_0506_0708_090A_0B0C0D0E0F10);
    assert_eq!(h.transaction_log, FileChunkReference { start: LOG_AT, len: 28 });
    assert_eq!(h.file_node_list_root.start, ROOT_AT);
    assert_eq!(h.hashed_chunk_list, FileChunkReference { start: 0, len: 0 });
    assert_eq!(h.expected_file_length, 4096);
    assert_eq!(h.free_space_in_free_chunk_list, 17);
    assert_eq!(h.file_version_generation, 9);
}

#[test]
fn header_of_toc_file() {
    let h = header_of(header_bytes(ONETOC2, 0x1B, (LOG_AT, 28), (ROOT_AT, 40))).unwrap();
    assert_eq!(h.file_type, OneNoteFileType::OneToc2);
}

#[test]
fn header_gating_fields() {
    let clean = header_bytes(ONE, 0x2A, (LOG_AT, 28), (ROOT_AT, 40));
    let cases: [(usize, ParseError); 12] = [
        (0, ParseError::BadFileType),
        (15, ParseError::BadFileType),
        (32, ParseError::LegacyFileVersionNotNil),
        (50, ParseError::BadFileFormat),
        (64, ParseError::BadCodeVersion),
        (79, ParseError::BadCodeVersion),
        (80, ParseError::LegacyFreeChunkListNotZero),
        (91, ParseError::LegacyTransactionLogNotNil),
        (100, ParseError::LegacyExpectedFileLengthNotZero),
        (107, ParseError::PlaceholderNotZero),
        (113, ParseError::LegacyRootListNotNil),
        (119, ParseError::LegacyRootListNotNil),
    ];
    for (at, expected) in cases {
        for bit in 0..8 {
            let mut b = clean.clone();
            b[at] ^= 1 << bit;
            assert_eq!(header_of(b), Err(expected));
        }
    }
    // Fields that are not checked may hold anything.
    let mut b = clean.clone();
    b[20] ^= 0xFF;
    b[125] ^= 0xFF;
    b[146] ^= 0xFF;
    assert!(header_of(b).is_ok());
}

#[test]
fn header_without_transactions() {
    let mut b = header_bytes(ONE, 0x2A, (LOG_AT, 28), (ROOT_AT, 40));
    put(&mut b, 96, &0u32.to_le_bytes());
    assert_eq!(header_of(b), Err(ParseError::NoTransactions));
}

#[test]
fn header_code_version_of_other_type() {
    let b = header_bytes(ONE, 0x1B, (LOG_AT, 28), (ROOT_AT, 40));
    assert_eq!(header_of(b), Err(ParseError::BadCodeVersion));
}

#[test]
fn header_truncated() {
    let mut b = header_bytes(ONE, 0x2A, (LOG_AT, 28), (ROOT_AT, 40));
    b.truncate(235);
    assert_eq!(header_of(b), Err(ParseError::UnexpectedEof));
    let mut b = header_bytes(ONE, 0x2A, (LOG_AT, 28), (ROOT_AT, 40));
    b.truncate(236);
    assert!(header_of(b).is_ok());
}

fn log_of(entries: &[(u32, u32)], transactions: u64) -> Result<TransactionLog, ParseError> {
    let mut b = Vec::new();
    for (src, switch) in entries {
        b.extend_from_slice(&src.to_le_bytes());
        b.extend_from_slice(&switch.to_le_bytes());
    }
    b.extend_from_slice(&[0u8; 12]);
    let len = b.len() as u64;
    let mut reader = Reader::new(b);
    TransactionLog::from_reader(&FileChunkReference { start: 0, len }, &mut reader, transactions)
}

#[test]
fn log_later_entry_wins() {
    let log = log_of(&[(7, 3), (9, 1), (1, 0), (7, 5), (1, 0)], 2).unwrap();
    assert_eq!(log.get(7), Some(5));
    assert_eq!(log.get(9), Some(1));
    assert_eq!(log.get(1), None);
    assert_eq!(log.len(), 2);
}

#[test]
fn log_stops_after_expected_transactions() {
    // Entries after the last expected sentinel are not read.
    let log = log_of(&[(7, 3), (1, 0), (8, 4), (9, 9)], 1).unwrap();
    assert_eq!(log.get(7), Some(3));
    assert_eq!(log.get(8), None);
}

#[test]
fn log_missing_sentinel() {
    assert_eq!(log_of(&[(7, 3), (1, 0), (8, 4)], 2).err(), Some(ParseError::MissingSentinel));
}

#[test]
fn log_further_fragment_unsupported() {
    assert_eq!(log_of(&[(7, 3), (1, 0)], 2).err(), Some(ParseError::UnsupportedLogFragment));
}

#[test]
fn log_chunk_too_short() {
    let mut reader = Reader::new(vec![0u8; 64]);
    let r = TransactionLog::from_reader(&FileChunkReference { start: 0, len: 11 }, &mut reader, 1);
    assert_eq!(r.err(), Some(ParseError::ChunkOutOfRange));
}

fn log_with(id: u32, count: u32) -> TransactionLog {
    log_of(&[(id, count), (1, 0)], 1).unwrap()
}

fn list_of(buf: Vec<u8>, at: u64, len: u64, log: &TransactionLog) -> Result<FileNodeList, ParseError> {
    let mut reader = Reader::new(buf);
    FileNodeList::from_reader(&FileChunkReference { start: at, len }, &mut reader, log)
}

#[test]
fn list_reads_exactly_logged_count() {
    let mut b = Vec::new();
    let nodes = vec![manifest_root_node(), manifest_root_node()];
    let len = fragment(&mut b, 0, 3, 0, &nodes, 6, (u64::MAX, 0));
    let list = list_of(b, 0, len, &log_with(3, 2)).unwrap();
    assert_eq!(list.file_nodes.len(), 2);
}

#[test]
fn list_with_more_nodes_than_logged() {
    let mut b = Vec::new();
    let nodes = vec![manifest_root_node(), manifest_root_node(), manifest_root_node()];
    let len = fragment(&mut b, 0, 3, 0, &nodes, 0, (u64::MAX, 0));
    assert_eq!(list_of(b, 0, len, &log_with(3, 2)).err(), Some(ParseError::UnaccountedNodes));
}

#[test]
fn list_with_fewer_nodes_than_logged() {
    let mut b = Vec::new();
    let nodes = vec![manifest_root_node(), manifest_root_node()];
    let len = fragment(&mut b, 0, 3, 0, &nodes, 0, (u64::MAX, 0));
    assert_eq!(list_of(b, 0, len, &log_with(3, 4)).err(), Some(ParseError::BrokenFragmentChain));
}

#[test]
fn list_across_two_fragments() {
    let mut b = Vec::new();
    let second_at = 200u64;
    let second_nodes = vec![manifest_root_node(), manifest_root_node()];
    let second_len = fragment(&mut b, second_at as usize, 3, 1, &second_nodes, 0, (u64::MAX, 0));
    let first_nodes = vec![manifest_root_node()];
    let first_len = fragment(&mut b, 0, 3, 0, &first_nodes, 0, (second_at, second_len as u32));
    let list = list_of(b, 0, first_len, &log_with(3, 3)).unwrap();
    assert_eq!(list.id, 3);
    assert_eq!(list.fragment_sequence_index, 0);
    assert_eq!(list.file_nodes.len(), 3);
    assert_eq!(list.file_nodes[0].file_chunk_ref.start, 20);
    assert_eq!(list.file_nodes[1].file_chunk_ref.start, second_at + 20);
}

#[test]
fn list_empty_first_fragment_continues() {
    let mut b = Vec::new();
    let second_at = 100u64;
    let second_nodes = vec![manifest_root_node(), manifest_root_node()];
    let second_len = fragment(&mut b, second_at as usize, 3, 1, &second_nodes, 0, (u64::MAX, 0));
    let first_len = fragment(&mut b, 0, 3, 0, &[], 0, (second_at, second_len as u32));
    assert_eq!(first_len, 36);
    let list = list_of(b, 0, first_len, &log_with(3, 2)).unwrap();
    assert_eq!(list.id, 3);
    assert_eq!(list.fragment_sequence_index, 0);
    assert_eq!(list.file_nodes.len(), 2);
    assert_eq!(list.file_nodes[0].file_chunk_ref.start, second_at + 20);
    assert_eq!(list.file_nodes[1].file_chunk_ref.start, second_at + 44);
}

#[test]
fn list_fragment_pointing_to_itself() {
    let mut b = Vec::new();
    let len = fragment(&mut b, 0, 3, 0, &[], 0, (0, 0));
    put_ref(&mut b, 16, 0, len as u32);
    assert_eq!(list_of(b, 0, len, &log_with(3, 1)).err(), Some(ParseError::BrokenFragmentChain));
}

#[test]
fn list_id_not_in_log() {
    let mut b = Vec::new();
    let len = fragment(&mut b, 0, 3, 0, &[manifest_root_node()], 0, (u64::MAX, 0));
    assert_eq!(list_of(b, 0, len, &log_with(4, 1)).err(), Some(ParseError::ListNotInLog));
}

#[test]
fn list_chunk_past_end() {
    let mut b = Vec::new();
    let len = fragment(&mut b, 0, 3, 0, &[manifest_root_node()], 0, (u64::MAX, 0));
    assert_eq!(list_of(b.clone(), 0, len + 1, &log_with(3, 1)).err(), Some(ParseError::ChunkOutOfRange));
    assert_eq!(list_of(b.clone(), 0, 19, &log_with(3, 1)).err(), Some(ParseError::ChunkOutOfRange));
    assert_eq!(list_of(b, 0, 35, &log_with(3, 1)).err(), Some(ParseError::ChunkOutOfRange));
}

#[test]
fn list_with_unknown_node_type() {
    let mut b = Vec::new();
    let mut bad = node_word(0x05, 24, 0, 0, 0).to_vec();
    bad.extend_from_slice(&[0u8; 20]);
    let len = fragment(&mut b, 0, 3, 0, &[bad], 0, (u64::MAX, 0));
    assert_eq!(list_of(b, 0, len, &log_with(3, 1)).err(), Some(ParseError::UnknownNodeType));
}
