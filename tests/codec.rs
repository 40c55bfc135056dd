use onestore::bytes::Reader;
use onestore::chunk::FileChunkReference;
use onestore::error::ParseError;
use onestore::guid::Guid;
use onestore::node::{BaseType, CbFormat, FileNode, FileNodeHeader, FileType, StpFormat};

fn chunk_ref(bytes: Vec<u8>, start_bits: u32, len_bits: u32) -> (Result<FileChunkReference, ParseError>, u64) {
    let mut reader = Reader::new(bytes);
    let r = FileChunkReference::from_reader(&mut reader, start_bits, len_bits);
    (r, reader.stream_position())
}

#[test]
fn chunk_ref_every_width() {
    let bytes: Vec<u8> = (1..=16).collect();
    let widths = [8u32, 16, 32, 64];
    for &s in &widths {
        for &l in &widths {
            let (r, pos) = chunk_ref(bytes.clone(), s, l);
            let c = r.unwrap();
            let sn = (s / 8) as usize;
            let ln = (l / 8) as usize;
            let mut start = [0u8; 8];
            start[..sn].copy_from_slice(&bytes[..sn]);
            let mut len = [0u8; 8];
            len[..ln].copy_from_slice(&bytes[sn..sn + ln]);
            assert_eq!(c.start, u64::from_le_bytes(start));
            assert_eq!(c.len, u64::from_le_bytes(len));
            // The low bytes of each decoded value are the raw bytes again.
            assert_eq!(&c.start.to_le_bytes()[..sn], &bytes[..sn]);
            assert_eq!(&c.len.to_le_bytes()[..ln], &bytes[sn..sn + ln]);
            assert_eq!(pos, (sn + ln) as u64);
        }
    }
}

#[test]
fn chunk_ref_exact_values() {
    let (r, _) = chunk_ref(vec![0x34, 0x12, 0x78, 0x56, 0x01, 0x00, 0x00, 0x00], 16, 32);
    assert_eq!(r, Ok(FileChunkReference { start: 0x1234, len: 0x0001_5678 }));
    let (r, _) = chunk_ref(vec![0x34, 0x12, 0x78, 0x56, 0x01, 0x00, 0x00, 0x00], 32, 8);
    assert_eq!(r, Ok(FileChunkReference { start: 0x5678_1234, len: 1 }));
}

#[test]
fn chunk_ref_all_ones_is_nil_at_every_width() {
    for &(s, n) in &[(8u32, 1usize), (16, 2), (32, 4), (64, 8)] {
        let mut bytes = vec![0xFFu8; n];
        bytes.extend_from_slice(&[0, 0, 0, 0]);
        let (r, _) = chunk_ref(bytes, s, 32);
        let c = r.unwrap();
        assert_eq!(c.start, u64::MAX);
        assert!(c.is_nil());
        assert!(!c.is_zero());
    }
    // One bit short of all ones is not nil.
    let (r, _) = chunk_ref(vec![0xFE, 0xFF, 0, 0], 16, 16);
    let c = r.unwrap();
    assert_eq!(c.start, 0xFFFE);
    assert!(!c.is_nil());
    // A nil start with a non-zero length is not nil.
    let (r, _) = chunk_ref(vec![0xFF, 0x01], 8, 8);
    assert!(!r.unwrap().is_nil());
}

#[test]
fn chunk_ref_zero() {
    let (r, _) = chunk_ref(vec![0u8; 12], 64, 32);
    let c = r.unwrap();
    assert!(c.is_zero());
    assert!(!c.is_nil());
}

#[test]
fn chunk_ref_unsupported_width() {
    assert_eq!(chunk_ref(vec![0u8; 16], 24, 32).0, Err(ParseError::UnsupportedWidth));
    assert_eq!(chunk_ref(vec![0u8; 16], 32, 0).0, Err(ParseError::UnsupportedWidth));
}

#[test]
fn chunk_ref_past_end() {
    assert_eq!(chunk_ref(vec![0u8; 11], 64, 32).0, Err(ParseError::UnexpectedEof));
    assert_eq!(chunk_ref(vec![0u8; 12], 64, 32).0.is_ok(), true);
}

#[test]
fn reader_reads_little_endian() {
    let mut r = Reader::new(vec![1, 2, 3, 4, 5, 6, 7, 8, 9, 10, 11, 12, 13, 14]);
    assert_eq!(r.read_u8(), Ok(1));
    assert_eq!(r.read_u16(), Ok(0x0302));
    assert_eq!(r.read_u32(), Ok(0x0706_0504));
    assert_eq!(r.read_u64(), Err(ParseError::UnexpectedEof));
    r.seek(6);
    assert_eq!(r.read_u64(), Ok(0x0E0D_0C0B_0A09_0807));
    assert_eq!(r.stream_position(), 14);
    assert_eq!(r.read_u8(), Err(ParseError::UnexpectedEof));
}

#[test]
fn guid_reads_mixed_endian() {
    let bytes = vec![
        0xa1, 0xa2, 0xa3, 0xa4, 0xb1, 0xb2, 0xc1, 0xc2, 0xd1, 0xd2, 0xd3, 0xd4, 0xd5, 0xd6, 0xd7, 0xd8,
    ];
    let mut r = Reader::new(bytes);
    let g = Guid::from_reader(&mut r).unwrap();
    assert_eq!(g.value, 0xa4a3a2a1_b2b1_c2c1_d1d2_d3d4d5d6d7d8);
    assert!(!g.is_nil());
    let mut r = Reader::new(vec![0u8; 16]);
    assert!(Guid::from_reader(&mut r).unwrap().is_nil());
    let mut r = Reader::new(vec![0u8; 15]);
    assert_eq!(Guid::from_reader(&mut r), Err(ParseError::UnexpectedEof));
}

fn word(id: u32, size: u32, stp: u32, cb: u32, base: u32) -> u32 {
    id | (size << 10) | (stp << 23) | (cb << 25) | (base << 27)
}

fn node(bytes: Vec<u8>) -> (Result<FileNode, ParseError>, u64) {
    let mut r = Reader::new(bytes);
    let n = FileNode::from_reader(&mut r);
    (n, r.stream_position())
}

#[test]
fn node_header_fields() {
    let h = FileNodeHeader::unpack(word(0x2D, 0x1ABC, 2, 3, 1) | (1 << 31));
    assert_eq!(h.id, 0x2D);
    assert_eq!(h.size, 0x1ABC);
    assert_eq!(h.stp_format, StpFormat::Compressed2);
    assert_eq!(h.cb_format, CbFormat::Compressed2);
    assert_eq!(h.base_type, 1);
    assert_eq!(h.reserved, 1);
    assert_eq!(FileType::from_id(0x2D), Some(FileType::ObjectDeclarationWithRefCount));
    assert_eq!(FileType::from_id(0xFF), Some(FileType::ChunkTerminator));
    assert_eq!(FileType::from_id(0x00), None);
    assert_eq!(BaseType::from_bits(2), Some(BaseType::FileNodeReference));
    assert_eq!(BaseType::from_bits(3), None);
}

#[test]
fn node_compressed_reference() {
    // Start stored in two bytes, length in one, both in units of 8 bytes.
    let mut b = word(0x08, 16, 2, 2, 2).to_le_bytes().to_vec();
    b.extend_from_slice(&[0x05, 0x01, 0x03]);
    b.extend_from_slice(&[0xEE; 13]);
    let (n, pos) = node(b);
    let n = n.unwrap();
    assert_eq!(n.file_type, FileType::ObjectSpaceManifestListReference);
    assert_eq!(n.base_type, BaseType::FileNodeReference);
    assert_eq!(n.file_chunk_ref, FileChunkReference { start: 0x105 * 8, len: 3 * 8 });
    assert_eq!(n.file_chunk_ref.start % 8, 0);
    assert_eq!(pos, 16);
}

#[test]
fn node_compressed_four_byte_start() {
    let mut b = word(0x10, 12, 3, 2, 1).to_le_bytes().to_vec();
    b.extend_from_slice(&0xFFFF_FFFFu32.to_le_bytes());
    b.push(0xFF);
    let (n, pos) = node(b);
    let n = n.unwrap();
    assert_eq!(n.file_chunk_ref, FileChunkReference { start: 0xFFFF_FFFF * 8, len: 0xFF * 8 });
    assert_eq!(pos, 12);
}

#[test]
fn node_uncompressed_reference() {
    let mut b = word(0x90, 16, 1, 0, 1).to_le_bytes().to_vec();
    b.extend_from_slice(&0x1234_5678u32.to_le_bytes());
    b.extend_from_slice(&0x42u32.to_le_bytes());
    let (n, _) = node(b.clone());
    assert_eq!(n.unwrap().file_chunk_ref, FileChunkReference { start: 0x1234_5678, len: 0x42 });
    let mut b = word(0x90, 20, 0, 1, 1).to_le_bytes().to_vec();
    b.extend_from_slice(&0x1_0000_0000u64.to_le_bytes());
    b.extend_from_slice(&7u64.to_le_bytes());
    let (n, pos) = node(b);
    assert_eq!(n.unwrap().file_chunk_ref, FileChunkReference { start: 0x1_0000_0000, len: 7 });
    assert_eq!(pos, 20);
}

#[test]
fn node_without_reference_skips_declared_size() {
    let mut b = vec![0u8; 3];
    b.extend_from_slice(&word(0x1C, 40, 0, 0, 0).to_le_bytes());
    let mut r = Reader::new(b);
    r.seek(3);
    let n = FileNode::from_reader(&mut r).unwrap();
    assert_eq!(n.file_type, FileType::RevisionManifestEnd);
    assert_eq!(n.file_chunk_ref, FileChunkReference { start: 7, len: 0 });
    assert_eq!(r.stream_position(), 43);
}

#[test]
fn node_unknown_type_and_base() {
    assert_eq!(node(word(0x03, 4, 0, 0, 0).to_le_bytes().to_vec()).0, Err(ParseError::UnknownNodeType));
    assert_eq!(node(word(0x04, 4, 0, 0, 3).to_le_bytes().to_vec()).0, Err(ParseError::UnknownBaseType));
}

#[test]
fn node_body_past_end() {
    let mut b = word(0x08, 16, 0, 1, 1).to_le_bytes().to_vec();
    b.extend_from_slice(&[0u8; 15]);
    assert_eq!(node(b).0, Err(ParseError::UnexpectedEof));
    assert_eq!(node(vec![0x04, 0x60]).0, Err(ParseError::UnexpectedEof));
}
