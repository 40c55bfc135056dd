use vstd::prelude::*;

use crate::bytes::{fits, le_at, lemma_le_update, Reader};
use crate::chunk::{chunk_ref_at, lemma_le_bound, pow256, FileChunkReference};
use crate::error::ParseError;
use crate::FromFileChunk;
use crate::guid::{guid_at, Guid};

verus! {

/// The file type GUID of a section file, `7B5C52E4-D88C-4DA7-AEB1-5378D02996D3`.
pub const FILE_TYPE_ONE: u128 = 0x7B5C52E4_D88C_4DA7_AEB1_5378D02996D3;

/// The file type GUID of a table of contents file, `43FF2FA1-EFD9-4C76-9EE2-10EA5722765F`.
pub const FILE_TYPE_ONETOC2: u128 = 0x43FF2FA1_EFD9_4C76_9EE2_10EA5722765F;

/// The one supported file format GUID, `109ADD3F-911B-49F5-A5D0-1791EDC8AED8`.
pub const VALID_FILE_FORMAT: u128 = 0x109ADD3F_911B_49F5_A5D0_1791EDC8AED8;

/// The version of the code that wrote a section file.
pub const CODE_VERSION_ONE: u32 = 0x2A;

/// The version of the code that wrote a table of contents file.
pub const CODE_VERSION_ONETOC2: u32 = 0x1B;

/// Bytes of the header that are read; the rest of its 1024 bytes are not.
pub const HEADER_LEN: u64 = 236;

/// The two kinds of container.
#[derive(Clone, Copy, Debug, PartialEq, Eq, Structural)]
pub enum OneNoteFileType {
    One,
    OneToc2,
}

/// The fixed header at the start of a container file.
#[derive(Clone, Copy, Debug, PartialEq, Eq, Structural)]
pub struct OneNoteFileHeader {
    pub file_type: OneNoteFileType,
    pub file_guid: Guid,
    pub transactions_in_log: u32,
    pub ancestor_guid: Guid,
    pub hashed_chunk_list: FileChunkReference,
    pub transaction_log: FileChunkReference,
    pub file_node_list_root: FileChunkReference,
    pub free_chunk_list: FileChunkReference,
    pub expected_file_length: u64,
    pub free_space_in_free_chunk_list: u64,
    pub file_version: Guid,
    pub file_version_generation: u64,
}

/// The container type that the file type GUID `g` names, if any.
pub open spec fn file_type_for(g: u128) -> Option<OneNoteFileType> {
    if g == FILE_TYPE_ONE {
        Some(OneNoteFileType::One)
    } else if g == FILE_TYPE_ONETOC2 {
        Some(OneNoteFileType::OneToc2)
    } else {
        None
    }
}

/// The code version that files of type `t` must record.
pub open spec fn code_version_for(t: OneNoteFileType) -> u32 {
    match t {
        OneNoteFileType::One => CODE_VERSION_ONE,
        OneNoteFileType::OneToc2 => CODE_VERSION_ONETOC2,
    }
}

/// Whether the four code versions of the header at `p` are all `v`.
pub open spec fn code_versions_are(data: Seq<u8>, p: int, v: u32) -> bool {
    &&& le_at(data, p + 64, 4) == v
    &&& le_at(data, p + 68, 4) == v
    &&& le_at(data, p + 72, 4) == v
    &&& le_at(data, p + 76, 4) == v
}

/// Whether the chunk reference with 32-bit fields at `at` is zero.
pub open spec fn zero_ref32_at(data: Seq<u8>, at: int) -> bool {
    le_at(data, at, 4) == 0 && le_at(data, at + 4, 4) == 0
}

/// Whether the chunk reference with 32-bit fields at `at` is nil.
pub open spec fn nil_ref32_at(data: Seq<u8>, at: int) -> bool {
    le_at(data, at, 4) == 0xFFFF_FFFF && le_at(data, at + 4, 4) == 0
}

/// The first check that the header at `p` fails, in the order the fields are
/// stored, if any.
pub open spec fn header_error(data: Seq<u8>, p: int) -> Option<ParseError> {
    match file_type_for(guid_at(data, p).value) {
        None => Some(ParseError::BadFileType),
        Some(t) => {
            if guid_at(data, p + 32).value != 0 {
                Some(ParseError::LegacyFileVersionNotNil)
            } else if guid_at(data, p + 48).value != VALID_FILE_FORMAT {
                Some(ParseError::BadFileFormat)
            } else if !code_versions_are(data, p, code_version_for(t)) {
                Some(ParseError::BadCodeVersion)
            } else if !zero_ref32_at(data, p + 80) {
                Some(ParseError::LegacyFreeChunkListNotZero)
            } else if !nil_ref32_at(data, p + 88) {
                Some(ParseError::LegacyTransactionLogNotNil)
            } else if le_at(data, p + 96, 4) == 0 {
                Some(ParseError::NoTransactions)
            } else if le_at(data, p + 100, 4) != 0 {
                Some(ParseError::LegacyExpectedFileLengthNotZero)
            } else if le_at(data, p + 104, 8) != 0 {
                Some(ParseError::PlaceholderNotZero)
            } else if !nil_ref32_at(data, p + 112) {
                Some(ParseError::LegacyRootListNotNil)
            } else {
                None
            }
        },
    }
}

/// The fields of the header at `p`.
pub open spec fn header_fields(data: Seq<u8>, p: int) -> OneNoteFileHeader {
    OneNoteFileHeader {
        file_type: file_type_for(guid_at(data, p).value)->Some_0,
        file_guid: guid_at(data, p + 16),
        transactions_in_log: le_at(data, p + 96, 4) as u32,
        ancestor_guid: guid_at(data, p + 128),
        hashed_chunk_list: chunk_ref_at(data, p + 148, 64, 32)->Ok_0,
        transaction_log: chunk_ref_at(data, p + 160, 64, 32)->Ok_0,
        file_node_list_root: chunk_ref_at(data, p + 172, 64, 32)->Ok_0,
        free_chunk_list: chunk_ref_at(data, p + 184, 64, 32)->Ok_0,
        expected_file_length: le_at(data, p + 196, 8) as u64,
        free_space_in_free_chunk_list: le_at(data, p + 204, 8) as u64,
        file_version: guid_at(data, p + 212),
        file_version_generation: le_at(data, p + 228, 8) as u64,
    }
}

/// The header stored at the start of `fcr`.
pub open spec fn header_at(data: Seq<u8>, fcr: FileChunkReference) -> Result<OneNoteFileHeader, ParseError> {
    let p = fcr.start as int;
    if !fits(data, p, HEADER_LEN as int) {
        Err(ParseError::UnexpectedEof)
    } else {
        match header_error(data, p) {
            Some(e) => Err(e),
            None => Ok(header_fields(data, p)),
        }
    }
}

proof fn lemma_ref32(data: Seq<u8>, at: int)
    requires
        0 <= at,
        fits(data, at, 8),
    ensures
        chunk_ref_at(data, at, 32, 32) matches Ok(c) && ((c.start == 0 && c.len == 0)
            == zero_ref32_at(data, at)) && ((c.start == u64::MAX && c.len == 0) == nil_ref32_at(
            data,
            at,
        )),
{
    let s = data.subrange(at, at + 4);
    let l = data.subrange(at + 4, at + 8);
    lemma_le_bound(s);
    lemma_le_bound(l);
    assert(pow256(4) == 0x1_0000_0000) by {
        reveal_with_fuel(pow256, 5);
    }
    assert(crate::chunk::all_ones(4) == 0xFFFF_FFFF);
}

/// Reads a 32-bit code version and checks it against `expected`.
fn check_code_version(reader: &mut Reader, expected: u32) -> (r: Result<(), ParseError>)
    ensures
        final(reader).data@ == old(reader).data@,
        fits(old(reader).data@, old(reader).pos as int, 4) ==> (r is Ok <==> le_at(
            old(reader).data@,
            old(reader).pos as int,
            4,
        ) == expected) && (r matches Err(e) ==> e == ParseError::BadCodeVersion),
        !fits(old(reader).data@, old(reader).pos as int, 4) ==> r == Err::<(), ParseError>(
            ParseError::UnexpectedEof,
        ),
        r is Ok ==> final(reader).pos == old(reader).pos + 4,
{
    let code = reader.read_u32()?;
    if code != expected {
        return Err(ParseError::BadCodeVersion);
    }
    Ok(())
}

proof fn lemma_field_changed(data: Seq<u8>, a: int, n: int, i: int, x: u8)
    requires
        0 <= a <= i < a + n <= data.len(),
        x != data[i],
    ensures
        le_at(data.update(i, x), a, n) != le_at(data, a, n),
{
    let s = data.subrange(a, a + n);
    assert(data.update(i, x).subrange(a, a + n) =~= s.update(i - a, x));
    lemma_le_update(s, i - a, x);
}

proof fn lemma_field_kept(data: Seq<u8>, a: int, n: int, i: int, x: u8)
    requires
        0 <= a,
        0 <= n,
        a + n <= data.len(),
        0 <= i < data.len(),
        !(a <= i < a + n),
    ensures
        le_at(data.update(i, x), a, n) == le_at(data, a, n),
        n == 16 ==> guid_at(data.update(i, x), a) == guid_at(data, a),
{
    assert(data.update(i, x).subrange(a, a + n) =~= data.subrange(a, a + n));
}

proof fn lemma_guid_changed(data: Seq<u8>, a: int, i: int, x: u8)
    requires
        0 <= a <= i < a + 16 <= data.len(),
        x != data[i],
    ensures
        guid_at(data.update(i, x), a) != guid_at(data, a),
{
    let s = data.subrange(a, a + 16);
    let t = data.update(i, x).subrange(a, a + 16);
    let j = i - a;
    assert(t =~= s.update(j, x));
    let order = seq![
        s[15], s[14], s[13], s[12], s[11], s[10], s[9], s[8],
        s[6], s[7], s[4], s[5], s[0], s[1], s[2], s[3],
    ];
    let changed = seq![
        t[15], t[14], t[13], t[12], t[11], t[10], t[9], t[8],
        t[6], t[7], t[4], t[5], t[0], t[1], t[2], t[3],
    ];
    // The place of byte `j` in the order of significance.
    let k = if j >= 8 {
        15 - j
    } else if j == 6 {
        8
    } else if j == 7 {
        9
    } else if j == 4 {
        10
    } else if j == 5 {
        11
    } else {
        12 + j
    };
    assert(changed =~= order.update(k, x));
    lemma_le_update(order, k, x);
    lemma_le_bound(order);
    lemma_le_bound(changed);
    assert(pow256(16) == 0x1_0000_0000_0000_0000_0000_0000_0000_0000) by {
        reveal_with_fuel(pow256, 17);
    }
}

/// In a stream whose header decodes, changing any one byte of a field that must
/// hold a known GUID, the nil GUID, the code version of the file type, a zero or
/// nil legacy reference, or zero, makes the header fail to decode.
pub proof fn lemma_header_gating(data: Seq<u8>, fcr: FileChunkReference, i: int, x: u8)
    requires
        header_at(data, fcr) is Ok,
        fcr.start <= i < fcr.start + 16 || fcr.start + 32 <= i < fcr.start + 96 || fcr.start
            + 100 <= i < fcr.start + 120,
        x != data[i],
    ensures
        header_at(data.update(i, x), fcr) is Err,
{
    let p = fcr.start as int;
    if i < p + 16 {
        lemma_guid_changed(data, p, i, x);
        lemma_field_kept(data, p + 64, 4, i, x);
        lemma_field_kept(data, p + 68, 4, i, x);
        lemma_field_kept(data, p + 72, 4, i, x);
        lemma_field_kept(data, p + 76, 4, i, x);
    } else {
        lemma_field_kept(data, p, 16, i, x);
        if i < p + 48 {
            lemma_guid_changed(data, p + 32, i, x);
        } else if i < p + 64 {
            lemma_guid_changed(data, p + 48, i, x);
        } else if i < p + 104 {
            let a = p + 64 + (i - p - 64) / 4 * 4;
            assert(a <= i < a + 4);
            lemma_field_changed(data, a, 4, i, x);
        } else if i < p + 112 {
            lemma_field_changed(data, p + 104, 8, i, x);
        } else {
            let a = p + 112 + (i - p - 112) / 4 * 4;
            assert(a <= i < a + 4);
            lemma_field_changed(data, a, 4, i, x);
        }
    }
}

/// The header depends on its own bytes alone: changing a byte outside them leaves
/// what decoding it gives, success or error, as it was.
pub proof fn lemma_header_frame(data: Seq<u8>, fcr: FileChunkReference, i: int, x: u8)
    requires
        0 <= i < data.len(),
        !(fcr.start <= i < fcr.start + HEADER_LEN),
    ensures
        header_at(data.update(i, x), fcr) == header_at(data, fcr),
{
    let p = fcr.start as int;
    let changed = data.update(i, x);
    if fits(data, p, HEADER_LEN as int) {
        assert forall|a: int, n: int| p <= a && 0 <= n && a + n <= p + HEADER_LEN implies #[trigger] changed.subrange(a, a + n) == data.subrange(a, a + n) by {
            assert(changed.subrange(a, a + n) =~= data.subrange(a, a + n));
        }
    }
}

impl FromFileChunk for OneNoteFileHeader {
    /// Reads and checks the header stored at the start of `fcr`. A stream too short
    /// for the fields read fails at once; otherwise every legacy, reserved and
    /// identifying field is checked, in the order stored, and the first that fails
    /// ends the read with an error naming it.
    #[verifier::rlimit(30)]
    fn from_reader(fcr: &FileChunkReference, reader: &mut Reader) -> (r: Result<
        OneNoteFileHeader,
        ParseError,
    >)
        ensures
            r == header_at(old(reader).data@, *fcr),
    {
        let ghost data = reader.data@;
        let ghost p = fcr.start as int;
        let total = reader.data.len() as u64;
        if fcr.start > total || HEADER_LEN > total - fcr.start {
            return Err(ParseError::UnexpectedEof);
        }
        reader.seek(fcr.start);
        let file_type_guid = Guid::from_reader(reader)?;
        let file_type = if file_type_guid.value == FILE_TYPE_ONE {
            OneNoteFileType::One
        } else if file_type_guid.value == FILE_TYPE_ONETOC2 {
            OneNoteFileType::OneToc2
        } else {
            return Err(ParseError::BadFileType);
        };
        let file_guid = Guid::from_reader(reader)?;
        let legacy_file_version = Guid::from_reader(reader)?;
        if !legacy_file_version.is_nil() {
            return Err(ParseError::LegacyFileVersionNotNil);
        }
        let file_format = Guid::from_reader(reader)?;
        if file_format.value != VALID_FILE_FORMAT {
            return Err(ParseError::BadFileFormat);
        }
        let code_version = match file_type {
            OneNoteFileType::One => CODE_VERSION_ONE,
            OneNoteFileType::OneToc2 => CODE_VERSION_ONETOC2,
        };
        check_code_version(reader, code_version)?;
        check_code_version(reader, code_version)?;
        check_code_version(reader, code_version)?;
        check_code_version(reader, code_version)?;
        proof {
            lemma_ref32(data, p + 80);
            lemma_ref32(data, p + 88);
            lemma_ref32(data, p + 112);
        }
        let legacy_free_chunk_list = FileChunkReference::from_reader(reader, 32, 32)?;
        if !legacy_free_chunk_list.is_zero() {
            return Err(ParseError::LegacyFreeChunkListNotZero);
        }
        let legacy_transaction_log = FileChunkReference::from_reader(reader, 32, 32)?;
        if !legacy_transaction_log.is_nil() {
            return Err(ParseError::LegacyTransactionLogNotNil);
        }
        let transactions_in_log = reader.read_u32()?;
        if transactions_in_log == 0 {
            return Err(ParseError::NoTransactions);
        }
        let legacy_expected_file_length = reader.read_u32()?;
        if legacy_expected_file_length != 0 {
            return Err(ParseError::LegacyExpectedFileLengthNotZero);
        }
        let placeholder = reader.read_u64()?;
        if placeholder != 0 {
            return Err(ParseError::PlaceholderNotZero);
        }
        let legacy_file_node_list_root = FileChunkReference::from_reader(reader, 32, 32)?;
        if !legacy_file_node_list_root.is_nil() {
            return Err(ParseError::LegacyRootListNotNil);
        }
        // Eight bytes that carry nothing.
        let _ = reader.read_u64()?;
        let ancestor_guid = Guid::from_reader(reader)?;
        // A checksum of the file name, which is not checked.
        let _ = reader.read_u32()?;
        let hashed_chunk_list = FileChunkReference::from_reader(reader, 64, 32)?;
        let transaction_log = FileChunkReference::from_reader(reader, 64, 32)?;
        let file_node_list_root = FileChunkReference::from_reader(reader, 64, 32)?;
        let free_chunk_list = FileChunkReference::from_reader(reader, 64, 32)?;
        let expected_file_length = reader.read_u64()?;
        let free_space_in_free_chunk_list = reader.read_u64()?;
        let file_version = Guid::from_reader(reader)?;
        let file_version_generation = reader.read_u64()?;
        Ok(OneNoteFileHeader {
            file_type,
            file_guid,
            transactions_in_log,
            ancestor_guid,
            hashed_chunk_list,
            transaction_log,
            file_node_list_root,
            free_chunk_list,
            expected_file_length,
            free_space_in_free_chunk_list,
            file_version,
            file_version_generation,
        })
    }
}

} // verus!
