use vstd::prelude::*;

use crate::bytes::{fits, le_at, le_bytes, le_value, lemma_le_round_trip, Reader};
use crate::error::ParseError;

verus! {

/// A region of the file: where it starts and how many bytes it spans.
#[derive(Clone, Copy, Debug, PartialEq, Eq, Structural)]
pub struct FileChunkReference {
    pub start: u64,
    pub len: u64,
}

/// Field widths, in bits, that a chunk reference may be encoded with.
pub open spec fn valid_width(bits: u32) -> bool {
    bits == 8 || bits == 16 || bits == 32 || bits == 64
}

/// `256` to the power `n`.
pub open spec fn pow256(n: nat) -> nat
    decreases n,
{
    if n == 0 {
        1
    } else {
        256 * pow256((n - 1) as nat)
    }
}

/// The all-ones value of a field `bytes` bytes wide.
pub open spec fn all_ones(bytes: nat) -> nat {
    (pow256(bytes) - 1) as nat
}

/// The in-memory start of a chunk reference whose start field, `bytes` wide, holds
/// `raw`: an all-ones field becomes `u64::MAX`, whatever its width.
pub open spec fn normalized_start(raw: nat, bytes: nat) -> u64 {
    if raw == all_ones(bytes) {
        u64::MAX
    } else {
        raw as u64
    }
}

/// The chunk reference encoded at `pos` with a start field of `start_bits` and a
/// length field of `len_bits`.
pub open spec fn chunk_ref_at(data: Seq<u8>, pos: int, start_bits: u32, len_bits: u32) -> Result<
    FileChunkReference,
    ParseError,
> {
    let sn = start_bits / 8;
    let ln = len_bits / 8;
    if !valid_width(start_bits) || !valid_width(len_bits) {
        Err(ParseError::UnsupportedWidth)
    } else if !fits(data, pos, sn + ln) {
        Err(ParseError::UnexpectedEof)
    } else {
        Ok(
            FileChunkReference {
                start: normalized_start(le_at(data, pos, sn as int), sn as nat),
                len: le_at(data, pos + sn, ln as int) as u64,
            },
        )
    }
}

/// Reads an unsigned little-endian integer `bits` wide at the reader's position.
fn read_width(reader: &mut Reader, bits: u32) -> (r: Result<u64, ParseError>)
    requires
        valid_width(bits),
    ensures
        final(reader).data@ == old(reader).data@,
        r is Ok <==> fits(old(reader).data@, old(reader).pos as int, (bits / 8) as int),
        r matches Ok(v) ==> v as nat == le_at(old(reader).data@, old(reader).pos as int, (bits / 8) as int)
            && final(reader).pos == old(reader).pos + bits / 8,
        r matches Err(e) ==> e == ParseError::UnexpectedEof,
{
    if bits == 8 {
        match reader.read_u8() {
            Ok(v) => Ok(v as u64),
            Err(e) => Err(e),
        }
    } else if bits == 16 {
        match reader.read_u16() {
            Ok(v) => Ok(v as u64),
            Err(e) => Err(e),
        }
    } else if bits == 32 {
        match reader.read_u32() {
            Ok(v) => Ok(v as u64),
            Err(e) => Err(e),
        }
    } else {
        reader.read_u64()
    }
}

/// The all-ones value of a field `bits` wide.
fn all_ones_of(bits: u32) -> (r: u64)
    requires
        valid_width(bits),
    ensures
        r as nat == all_ones((bits / 8) as nat),
{
    proof {
        reveal_with_fuel(pow256, 9);
    }
    if bits == 8 {
        0xFF
    } else if bits == 16 {
        0xFFFF
    } else if bits == 32 {
        0xFFFF_FFFF
    } else {
        0xFFFF_FFFF_FFFF_FFFF
    }
}

impl FileChunkReference {
    /// Reads a chunk reference whose start and length fields are `start_size_bits`
    /// and `len_size_bits` wide, little-endian.
    pub fn from_reader(reader: &mut Reader, start_size_bits: u32, len_size_bits: u32) -> (r:
        Result<FileChunkReference, ParseError>)
        ensures
            final(reader).data@ == old(reader).data@,
            r == chunk_ref_at(old(reader).data@, old(reader).pos as int, start_size_bits, len_size_bits),
            r is Ok ==> final(reader).pos == old(reader).pos + start_size_bits / 8 + len_size_bits / 8,
    {
        if !(start_size_bits == 8 || start_size_bits == 16 || start_size_bits == 32
            || start_size_bits == 64) {
            return Err(ParseError::UnsupportedWidth);
        }
        if !(len_size_bits == 8 || len_size_bits == 16 || len_size_bits == 32 || len_size_bits
            == 64) {
            return Err(ParseError::UnsupportedWidth);
        }
        let ghost data = reader.data@;
        let ghost pos = reader.pos as int;
        let raw_start = match read_width(reader, start_size_bits) {
            Ok(v) => v,
            Err(e) => return Err(e),
        };
        // An all-ones start field is nil whatever its width.
        let start = if raw_start == all_ones_of(start_size_bits) {
            u64::MAX
        } else {
            raw_start
        };
        let len = match read_width(reader, len_size_bits) {
            Ok(v) => v,
            Err(e) => return Err(e),
        };
        proof {
            assert(data.subrange(pos + (start_size_bits / 8) as int, pos + (start_size_bits / 8) as int
                + (len_size_bits / 8) as int).len() == len_size_bits / 8);
        }
        Ok(FileChunkReference { start, len })
    }

    /// Whether this is the nil reference: all-ones start and zero length.
    pub fn is_nil(&self) -> (r: bool)
        ensures
            r == (self.start == u64::MAX && self.len == 0),
    {
        self.start == u64::MAX && self.len == 0
    }

    /// Whether this is the zero reference: zero start and zero length.
    pub fn is_zero(&self) -> (r: bool)
        ensures
            r == (self.start == 0 && self.len == 0),
    {
        self.start == 0 && self.len == 0
    }
}

proof fn lemma_all_ff(s: Seq<u8>)
    requires
        forall|i: int| 0 <= i < s.len() ==> s[i] == 0xFF,
    ensures
        le_value(s) == all_ones(s.len()),
    decreases s.len(),
{
    if s.len() > 0 {
        lemma_all_ff(s.drop_first());
        assert(pow256(s.len()) >= 1) by {
            lemma_pow256_positive(s.len());
        }
        lemma_pow256_positive((s.len() - 1) as nat);
    }
}

proof fn lemma_pow256_positive(n: nat)
    ensures
        pow256(n) >= 1,
    decreases n,
{
    if n > 0 {
        lemma_pow256_positive((n - 1) as nat);
    }
}

/// Decoding a chunk reference keeps every bit: for each supported pair of field
/// widths, the low bytes of the decoded start and length are the raw bytes they
/// were read from, and a start field of all ones decodes to `u64::MAX` whatever
/// its width.
pub proof fn lemma_chunk_ref_round_trip(data: Seq<u8>, pos: int, start_bits: u32, len_bits: u32)
    requires
        valid_width(start_bits),
        valid_width(len_bits),
        0 <= pos,
        fits(data, pos, (start_bits / 8 + len_bits / 8) as int),
    ensures
        chunk_ref_at(data, pos, start_bits, len_bits) matches Ok(c) && le_bytes(
            c.start as nat,
            (start_bits / 8) as nat,
        ) == data.subrange(pos, pos + start_bits / 8) && le_bytes(c.len as nat, (len_bits / 8) as nat)
            == data.subrange(pos + start_bits / 8, pos + start_bits / 8 + len_bits / 8) && ((forall|
            i: int,
        | pos <= i < pos + start_bits / 8 ==> data[i] == 0xFF) ==> c.start == u64::MAX),
{
    let sn = (start_bits / 8) as nat;
    let ln = (len_bits / 8) as nat;
    let s = data.subrange(pos, pos + sn);
    let l = data.subrange(pos + sn, pos + sn + ln);
    lemma_le_round_trip(s);
    lemma_le_round_trip(l);
    reveal_with_fuel(pow256, 9);
    assert(le_value(l) < pow256(ln)) by {
        lemma_le_bound(l);
    }
    assert(le_value(s) < pow256(sn)) by {
        lemma_le_bound(s);
    }
    if (forall|i: int| pos <= i < pos + sn ==> data[i] == 0xFF) {
        assert(forall|i: int| 0 <= i < s.len() ==> s[i] == 0xFF);
        lemma_all_ff(s);
    }
    if le_value(s) == all_ones(sn) {
        reveal_with_fuel(le_bytes, 9);
        assert(le_bytes(u64::MAX as nat, sn) =~= le_bytes(all_ones(sn), sn));
    }
}

pub proof fn lemma_le_bound(s: Seq<u8>)
    ensures
        le_value(s) < pow256(s.len()),
    decreases s.len(),
{
    if s.len() > 0 {
        lemma_le_bound(s.drop_first());
        let r = le_value(s.drop_first());
        let p = pow256((s.len() - 1) as nat);
        let b = s[0] as nat;
        assert(b + 256 * r < 256 * p) by (nonlinear_arith)
            requires
                b < 256,
                r < p,
        ;
    }
}

} // verus!
