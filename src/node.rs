use vstd::prelude::*;

use crate::bytes::{fits, le_at, Reader};
use crate::chunk::FileChunkReference;
use crate::error::ParseError;

verus! {

/// How the start of a node's chunk reference is stored.
#[derive(Clone, Copy, Debug, PartialEq, Eq, Structural)]
pub enum StpFormat {
    Uncompressed8,
    Uncompressed4,
    Compressed2,
    Compressed4,
}

/// How the length of a node's chunk reference is stored.
#[derive(Clone, Copy, Debug, PartialEq, Eq, Structural)]
pub enum CbFormat {
    Uncompressed4,
    Uncompressed8,
    Compressed1,
    Compressed2,
}

/// What a node's chunk reference points to, if anything.
#[derive(Clone, Copy, Debug, PartialEq, Eq, Structural)]
pub enum BaseType {
    NoReference,
    DataReference,
    FileNodeReference,
}

/// The closed set of file node types.
#[derive(Clone, Copy, Debug, PartialEq, Eq, Structural)]
pub enum FileType {
    ObjectSpaceManifestRoot,
    ObjectSpaceManifestListReference,
    ObjectSpaceManifestListStart,
    RevisionManifestListReference,
    RevisionManifestListStart,
    RevisionManifestStart4,
    RevisionManifestEnd,
    RevisionManifestStart6,
    RevisionManifestStart7,
    GlobalIdTableStart,
    GlobalIdTableStart2,
    GlobalIdTableEntry,
    GlobalIdTableEntry2,
    GlobalIdTableEntry3,
    GlobalIdTableEnd,
    ObjectDeclarationWithRefCount,
    ObjectDeclarationWithRefCount2,
    ObjectRevisionWithRefCount,
    ObjectRevisionWithRefCount2,
    RootObjectReference2,
    RootObjectReference3,
    RevisionRoleDeclaration,
    RevisionRoleAndContextDeclaration,
    ObjectDeclarationFileData3RefCount,
    ObjectDeclarationFileData3LargeRefCount,
    ObjectDataEncryptionKeyV2,
    ObjectInfoDependencyOverrides,
    DataSignatureGroupDefinition,
    FileDataStoreListReference,
    FileDataStoreObjectReference,
    ObjectDeclaration2RefCount,
    ObjectDeclaration2LargeRefCount,
    ObjectGroupListReference,
    ObjectGroupStart,
    ObjectGroupEnd,
    HashedChunkDescriptor2,
    ReadOnlyObjectDeclaration2RefCount,
    ReadOnlyObjectDeclaration2LargeRefCount,
    ChunkTerminator,
}

/// The node type with the 10-bit id `id`, if there is one.
pub open spec fn file_type_of(id: u16) -> Option<FileType> {
    match id {
        0x04 => Some(FileType::ObjectSpaceManifestRoot),
        0x08 => Some(FileType::ObjectSpaceManifestListReference),
        0x0C => Some(FileType::ObjectSpaceManifestListStart),
        0x10 => Some(FileType::RevisionManifestListReference),
        0x14 => Some(FileType::RevisionManifestListStart),
        0x1B => Some(FileType::RevisionManifestStart4),
        0x1C => Some(FileType::RevisionManifestEnd),
        0x1E => Some(FileType::RevisionManifestStart6),
        0x1F => Some(FileType::RevisionManifestStart7),
        0x21 => Some(FileType::GlobalIdTableStart),
        0x22 => Some(FileType::GlobalIdTableStart2),
        0x24 => Some(FileType::GlobalIdTableEntry),
        0x25 => Some(FileType::GlobalIdTableEntry2),
        0x26 => Some(FileType::GlobalIdTableEntry3),
        0x28 => Some(FileType::GlobalIdTableEnd),
        0x2D => Some(FileType::ObjectDeclarationWithRefCount),
        0x2E => Some(FileType::ObjectDeclarationWithRefCount2),
        0x41 => Some(FileType::ObjectRevisionWithRefCount),
        0x42 => Some(FileType::ObjectRevisionWithRefCount2),
        0x59 => Some(FileType::RootObjectReference2),
        0x5A => Some(FileType::RootObjectReference3),
        0x5C => Some(FileType::RevisionRoleDeclaration),
        0x5D => Some(FileType::RevisionRoleAndContextDeclaration),
        0x72 => Some(FileType::ObjectDeclarationFileData3RefCount),
        0x73 => Some(FileType::ObjectDeclarationFileData3LargeRefCount),
        0x7C => Some(FileType::ObjectDataEncryptionKeyV2),
        0x84 => Some(FileType::ObjectInfoDependencyOverrides),
        0x8C => Some(FileType::DataSignatureGroupDefinition),
        0x90 => Some(FileType::FileDataStoreListReference),
        0x94 => Some(FileType::FileDataStoreObjectReference),
        0xA4 => Some(FileType::ObjectDeclaration2RefCount),
        0xA5 => Some(FileType::ObjectDeclaration2LargeRefCount),
        0xB0 => Some(FileType::ObjectGroupListReference),
        0xB4 => Some(FileType::ObjectGroupStart),
        0xB8 => Some(FileType::ObjectGroupEnd),
        0xC2 => Some(FileType::HashedChunkDescriptor2),
        0xC4 => Some(FileType::ReadOnlyObjectDeclaration2RefCount),
        0xC5 => Some(FileType::ReadOnlyObjectDeclaration2LargeRefCount),
        0xFF => Some(FileType::ChunkTerminator),
        _ => None,
    }
}

/// The storage form with the 2-bit selector `bits`.
pub open spec fn stp_format_of(bits: u32) -> StpFormat {
    if bits == 0 {
        StpFormat::Uncompressed8
    } else if bits == 1 {
        StpFormat::Uncompressed4
    } else if bits == 2 {
        StpFormat::Compressed2
    } else {
        StpFormat::Compressed4
    }
}

/// The storage form with the 2-bit selector `bits`.
pub open spec fn cb_format_of(bits: u32) -> CbFormat {
    if bits == 0 {
        CbFormat::Uncompressed4
    } else if bits == 1 {
        CbFormat::Uncompressed8
    } else if bits == 2 {
        CbFormat::Compressed1
    } else {
        CbFormat::Compressed2
    }
}

/// The base type with the 4-bit selector `bits`, if there is one.
pub open spec fn base_type_of(bits: u8) -> Option<BaseType> {
    if bits == 0 {
        Some(BaseType::NoReference)
    } else if bits == 1 {
        Some(BaseType::DataReference)
    } else if bits == 2 {
        Some(BaseType::FileNodeReference)
    } else {
        None
    }
}

/// Bytes taken by the stored start of a chunk reference.
pub open spec fn stp_width(f: StpFormat) -> int {
    match f {
        StpFormat::Uncompressed8 => 8,
        StpFormat::Uncompressed4 => 4,
        StpFormat::Compressed2 => 2,
        StpFormat::Compressed4 => 4,
    }
}

/// Whether a stored start counts units of 8 bytes.
pub open spec fn stp_compressed(f: StpFormat) -> bool {
    f == StpFormat::Compressed2 || f == StpFormat::Compressed4
}

/// Bytes taken by the stored length of a chunk reference.
pub open spec fn cb_width(f: CbFormat) -> int {
    match f {
        CbFormat::Uncompressed4 => 4,
        CbFormat::Uncompressed8 => 8,
        CbFormat::Compressed1 => 1,
        CbFormat::Compressed2 => 2,
    }
}

/// Whether a stored length counts units of 8 bytes.
pub open spec fn cb_compressed(f: CbFormat) -> bool {
    f == CbFormat::Compressed1 || f == CbFormat::Compressed2
}

/// The packed 32-bit word at the start of every file node, split into its fields.
/// The type id and base type are kept raw, as they may lie outside the known sets.
#[derive(Clone, Copy, Debug, PartialEq, Eq, Structural)]
pub struct FileNodeHeader {
    pub id: u16,
    pub size: u16,
    pub stp_format: StpFormat,
    pub cb_format: CbFormat,
    pub base_type: u8,
    pub reserved: u8,
}

/// The fields of the header word `w`, from the least significant bit up: a 10-bit
/// type id, a 13-bit size, 2-bit start and length formats, a 4-bit base type and
/// one reserved bit.
pub open spec fn node_header_of(w: u32) -> FileNodeHeader {
    FileNodeHeader {
        id: (w & 0x3FF) as u16,
        size: ((w >> 10u32) & 0x1FFF) as u16,
        stp_format: stp_format_of((w >> 23u32) & 3),
        cb_format: cb_format_of((w >> 25u32) & 3),
        base_type: ((w >> 27u32) & 0xF) as u8,
        reserved: (w >> 31u32) as u8,
    }
}

impl FileType {
    /// The node type with the 10-bit id `id`; `None` for an id outside the set.
    pub fn from_id(id: u16) -> (r: Option<FileType>)
        ensures
            r == file_type_of(id),
    {
        match id {
            0x04 => Some(FileType::ObjectSpaceManifestRoot),
            0x08 => Some(FileType::ObjectSpaceManifestListReference),
            0x0C => Some(FileType::ObjectSpaceManifestListStart),
            0x10 => Some(FileType::RevisionManifestListReference),
            0x14 => Some(FileType::RevisionManifestListStart),
            0x1B => Some(FileType::RevisionManifestStart4),
            0x1C => Some(FileType::RevisionManifestEnd),
            0x1E => Some(FileType::RevisionManifestStart6),
            0x1F => Some(FileType::RevisionManifestStart7),
            0x21 => Some(FileType::GlobalIdTableStart),
            0x22 => Some(FileType::GlobalIdTableStart2),
            0x24 => Some(FileType::GlobalIdTableEntry),
            0x25 => Some(FileType::GlobalIdTableEntry2),
            0x26 => Some(FileType::GlobalIdTableEntry3),
            0x28 => Some(FileType::GlobalIdTableEnd),
            0x2D => Some(FileType::ObjectDeclarationWithRefCount),
            0x2E => Some(FileType::ObjectDeclarationWithRefCount2),
            0x41 => Some(FileType::ObjectRevisionWithRefCount),
            0x42 => Some(FileType::ObjectRevisionWithRefCount2),
            0x59 => Some(FileType::RootObjectReference2),
            0x5A => Some(FileType::RootObjectReference3),
            0x5C => Some(FileType::RevisionRoleDeclaration),
            0x5D => Some(FileType::RevisionRoleAndContextDeclaration),
            0x72 => Some(FileType::ObjectDeclarationFileData3RefCount),
            0x73 => Some(FileType::ObjectDeclarationFileData3LargeRefCount),
            0x7C => Some(FileType::ObjectDataEncryptionKeyV2),
            0x84 => Some(FileType::ObjectInfoDependencyOverrides),
            0x8C => Some(FileType::DataSignatureGroupDefinition),
            0x90 => Some(FileType::FileDataStoreListReference),
            0x94 => Some(FileType::FileDataStoreObjectReference),
            0xA4 => Some(FileType::ObjectDeclaration2RefCount),
            0xA5 => Some(FileType::ObjectDeclaration2LargeRefCount),
            0xB0 => Some(FileType::ObjectGroupListReference),
            0xB4 => Some(FileType::ObjectGroupStart),
            0xB8 => Some(FileType::ObjectGroupEnd),
            0xC2 => Some(FileType::HashedChunkDescriptor2),
            0xC4 => Some(FileType::ReadOnlyObjectDeclaration2RefCount),
            0xC5 => Some(FileType::ReadOnlyObjectDeclaration2LargeRefCount),
            0xFF => Some(FileType::ChunkTerminator),
            _ => None,
        }
    }
}

impl BaseType {
    /// The base type with the 4-bit selector `bits`; `None` for any other value.
    pub fn from_bits(bits: u8) -> (r: Option<BaseType>)
        ensures
            r == base_type_of(bits),
    {
        if bits == 0 {
            Some(BaseType::NoReference)
        } else if bits == 1 {
            Some(BaseType::DataReference)
        } else if bits == 2 {
            Some(BaseType::FileNodeReference)
        } else {
            None
        }
    }
}

impl FileNodeHeader {
    /// Splits a header word, read as a little-endian `u32`, into its fields.
    pub fn unpack(w: u32) -> (r: FileNodeHeader)
        ensures
            r == node_header_of(w),
    {
        let stp = (w >> 23u32) & 3;
        let cb = (w >> 25u32) & 3;
        let stp_format = if stp == 0 {
            StpFormat::Uncompressed8
        } else if stp == 1 {
            StpFormat::Uncompressed4
        } else if stp == 2 {
            StpFormat::Compressed2
        } else {
            StpFormat::Compressed4
        };
        let cb_format = if cb == 0 {
            CbFormat::Uncompressed4
        } else if cb == 1 {
            CbFormat::Uncompressed8
        } else if cb == 2 {
            CbFormat::Compressed1
        } else {
            CbFormat::Compressed2
        };
        FileNodeHeader {
            id: (w & 0x3FF) as u16,
            size: ((w >> 10u32) & 0x1FFF) as u16,
            stp_format,
            cb_format,
            base_type: ((w >> 27u32) & 0xF) as u8,
            reserved: (w >> 31u32) as u8,
        }
    }
}

/// A decoded file node: its type, the number of bytes it spans (header
/// included), and the region of the file it refers to.
#[derive(Clone, Copy, Debug, PartialEq, Eq, Structural)]
pub struct FileNode {
    pub file_type: FileType,
    pub size: u16,
    pub file_chunk_ref: FileChunkReference,
    pub base_type: BaseType,
}

/// The chunk reference stored in the body of a node at `body`, in the given forms;
/// compressed fields count units of 8 bytes.
pub open spec fn body_ref_at(data: Seq<u8>, body: int, stp: StpFormat, cb: CbFormat) -> FileChunkReference {
    let raw_start = le_at(data, body, stp_width(stp));
    let raw_len = le_at(data, body + stp_width(stp), cb_width(cb));
    FileChunkReference {
        start: (if stp_compressed(stp) { raw_start * 8 } else { raw_start }) as u64,
        len: (if cb_compressed(cb) { raw_len * 8 } else { raw_len }) as u64,
    }
}

/// The file node at `p` and the position just past it (by its declared size).
pub open spec fn node_at(data: Seq<u8>, p: int) -> Result<(FileNode, int), ParseError> {
    if !fits(data, p, 4) {
        Err(ParseError::UnexpectedEof)
    } else {
        let h = node_header_of(le_at(data, p, 4) as u32);
        match file_type_of(h.id) {
            None => Err(ParseError::UnknownNodeType),
            Some(file_type) => match base_type_of(h.base_type) {
                None => Err(ParseError::UnknownBaseType),
                Some(base_type) => {
                    if base_type != BaseType::NoReference && !fits(
                        data,
                        p + 4,
                        stp_width(h.stp_format) + cb_width(h.cb_format),
                    ) {
                        Err(ParseError::UnexpectedEof)
                    } else if p + h.size > u64::MAX {
                        Err(ParseError::UnexpectedEof)
                    } else {
                        let file_chunk_ref = if base_type == BaseType::NoReference {
                            FileChunkReference { start: (p + 4) as u64, len: 0 }
                        } else {
                            body_ref_at(data, p + 4, h.stp_format, h.cb_format)
                        };
                        Ok((FileNode { file_type, size: h.size, file_chunk_ref, base_type }, p + h.size))
                    }
                },
            },
        }
    }
}

impl FileNode {
    /// Decodes the file node at the reader's position and moves past it by its
    /// declared size, whatever the body holds.
    pub fn from_reader(reader: &mut Reader) -> (r: Result<FileNode, ParseError>)
        ensures
            final(reader).data@ == old(reader).data@,
            match node_at(old(reader).data@, old(reader).pos as int) {
                Ok((n, q)) => r == Ok::<FileNode, ParseError>(n) && final(reader).pos == q,
                Err(e) => r == Err::<FileNode, ParseError>(e),
            },
    {
        let start_of_node = reader.stream_position();
        let word = reader.read_u32()?;
        let header = FileNodeHeader::unpack(word);
        let file_type = match FileType::from_id(header.id) {
            Some(t) => t,
            None => return Err(ParseError::UnknownNodeType),
        };
        let base_type = match BaseType::from_bits(header.base_type) {
            Some(b) => b,
            None => return Err(ParseError::UnknownBaseType),
        };
        let file_chunk_ref = match base_type {
            BaseType::NoReference => FileChunkReference { start: reader.stream_position(), len: 0 },
            _ => {
                let start = match header.stp_format {
                    StpFormat::Uncompressed8 => reader.read_u64()?,
                    StpFormat::Uncompressed4 => reader.read_u32()? as u64,
                    StpFormat::Compressed2 => reader.read_u16()? as u64 * 8,
                    StpFormat::Compressed4 => reader.read_u32()? as u64 * 8,
                };
                let len = match header.cb_format {
                    CbFormat::Uncompressed8 => reader.read_u64()?,
                    CbFormat::Uncompressed4 => reader.read_u32()? as u64,
                    CbFormat::Compressed2 => reader.read_u16()? as u64 * 8,
                    CbFormat::Compressed1 => reader.read_u8()? as u64 * 8,
                };
                FileChunkReference { start, len }
            },
        };
        // The body is skipped by the declared size, never parsed here.
        if header.size as u64 > u64::MAX - start_of_node {
            return Err(ParseError::UnexpectedEof);
        }
        reader.seek(start_of_node + header.size as u64);
        Ok(FileNode { file_type, size: header.size, file_chunk_ref, base_type })
    }
}

/// A node whose start is stored compressed refers to a start that is the stored
/// value times 8, and so always a multiple of 8.
pub proof fn lemma_compressed_start(data: Seq<u8>, p: int)
    requires
        0 <= p,
        node_at(data, p) is Ok,
        node_at(data, p)->Ok_0.0.base_type != BaseType::NoReference,
        stp_compressed(node_header_of(le_at(data, p, 4) as u32).stp_format),
    ensures
        ({
            let n = node_at(data, p)->Ok_0.0;
            let stp = node_header_of(le_at(data, p, 4) as u32).stp_format;
            &&& n.file_chunk_ref.start == le_at(data, p + 4, stp_width(stp)) * 8
            &&& n.file_chunk_ref.start % 8 == 0
        }),
{
    let stp = node_header_of(le_at(data, p, 4) as u32).stp_format;
    let raw = le_at(data, p + 4, stp_width(stp));
    let s = data.subrange(p + 4, p + 4 + stp_width(stp));
    assert(fits(data, p + 4, stp_width(stp) + cb_width(node_header_of(le_at(data, p, 4) as u32).cb_format)));
    assert(s.len() == 2 || s.len() == 4);
    crate::chunk::lemma_le_bound(s);
    assert(crate::chunk::pow256(s.len()) <= 0x1_0000_0000) by {
        reveal_with_fuel(crate::chunk::pow256, 5);
    }
}

} // verus!
