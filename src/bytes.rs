use vstd::prelude::*;

use crate::error::ParseError;

verus! {

/// The value of `s` read as an unsigned little-endian integer.
pub open spec fn le_value(s: Seq<u8>) -> nat
    decreases s.len(),
{
    if s.len() == 0 {
        0
    } else {
        s[0] as nat + 256 * le_value(s.drop_first())
    }
}

/// The `n` least significant bytes of `v`, least significant first.
pub open spec fn le_bytes(v: nat, n: nat) -> Seq<u8>
    decreases n,
{
    if n == 0 {
        Seq::empty()
    } else {
        seq![(v % 256) as u8] + le_bytes(v / 256, (n - 1) as nat)
    }
}

/// The little-endian integer held by the `n` bytes of `data` at `pos`.
pub open spec fn le_at(data: Seq<u8>, pos: int, n: int) -> nat {
    le_value(data.subrange(pos, pos + n))
}

/// Writing the value of a byte string back in as many bytes gives the string again.
pub proof fn lemma_le_round_trip(s: Seq<u8>)
    ensures
        le_bytes(le_value(s), s.len()) == s,
    decreases s.len(),
{
    if s.len() > 0 {
        let r = le_value(s.drop_first());
        let b = s[0] as nat;
        lemma_le_round_trip(s.drop_first());
        assert((b + 256 * r) % 256 == b && (b + 256 * r) / 256 == r) by (nonlinear_arith)
            requires
                b < 256,
        ;
        assert(le_bytes(le_value(s), s.len()) =~= s);
    }
}

/// Changing one byte changes the value.
pub proof fn lemma_le_update(s: Seq<u8>, i: int, x: u8)
    requires
        0 <= i < s.len(),
        x != s[i],
    ensures
        le_value(s.update(i, x)) != le_value(s),
    decreases s.len(),
{
    let t = s.update(i, x);
    if i > 0 {
        assert(t.drop_first() =~= s.drop_first().update(i - 1, x));
        lemma_le_update(s.drop_first(), i - 1, x);
    } else {
        assert(t.drop_first() =~= s.drop_first());
    }
}

/// Relies on byteorder's `LittleEndian::read_u16`: the two bytes at `pos`, least
/// significant first.
#[verifier::external_body]
fn le_u16_at(data: &[u8], pos: usize) -> (r: u16)
    requires
        pos + 2 <= data@.len(),
    ensures
        r as nat == le_at(data@, pos as int, 2),
{
    <byteorder::LittleEndian as byteorder::ByteOrder>::read_u16(&data[pos..])
}

/// Relies on byteorder's `LittleEndian::read_u32`: the four bytes at `pos`, least
/// significant first.
#[verifier::external_body]
fn le_u32_at(data: &[u8], pos: usize) -> (r: u32)
    requires
        pos + 4 <= data@.len(),
    ensures
        r as nat == le_at(data@, pos as int, 4),
{
    <byteorder::LittleEndian as byteorder::ByteOrder>::read_u32(&data[pos..])
}

/// Relies on byteorder's `LittleEndian::read_u64`: the eight bytes at `pos`, least
/// significant first.
#[verifier::external_body]
fn le_u64_at(data: &[u8], pos: usize) -> (r: u64)
    requires
        pos + 8 <= data@.len(),
    ensures
        r as nat == le_at(data@, pos as int, 8),
{
    <byteorder::LittleEndian as byteorder::ByteOrder>::read_u64(&data[pos..])
}

/// A random-access byte stream: the whole input and a current position, which
/// may lie past its end (as a seek may).
pub struct Reader {
    pub data: Vec<u8>,
    pub pos: u64,
}

/// Whether `n` bytes can be read at `pos` of `data`.
pub open spec fn fits(data: Seq<u8>, pos: int, n: int) -> bool {
    pos + n <= data.len()
}

impl Reader {
    pub fn new(data: Vec<u8>) -> (r: Reader)
        ensures
            r.data@ == data@,
            r.pos == 0,
    {
        Reader { data, pos: 0 }
    }

    /// Moves to the absolute position `pos`.
    pub fn seek(&mut self, pos: u64)
        ensures
            final(self).data@ == old(self).data@,
            final(self).pos == pos,
    {
        self.pos = pos;
    }

    pub fn stream_position(&self) -> (r: u64)
        ensures
            r == self.pos,
    {
        self.pos
    }

    /// Whether `n` bytes remain from the current position; if so, that position.
    fn start_of(&self, n: u64) -> (r: Option<usize>)
        ensures
            r is Some <==> fits(self.data@, self.pos as int, n as int),
            r matches Some(p) ==> p == self.pos && self.pos + n <= u64::MAX,
    {
        let len = self.data.len() as u64;
        if self.pos <= len && n <= len - self.pos {
            Some(self.pos as usize)
        } else {
            None
        }
    }

    pub fn read_u8(&mut self) -> (r: Result<u8, ParseError>)
        ensures
            final(self).data@ == old(self).data@,
            r is Ok <==> fits(old(self).data@, old(self).pos as int, 1),
            r matches Ok(v) ==> v as nat == le_at(old(self).data@, old(self).pos as int, 1)
                && final(self).pos == old(self).pos + 1,
            r matches Err(e) ==> e == ParseError::UnexpectedEof,
    {
        match self.start_of(1) {
            Some(p) => {
                let v = self.data[p];
                self.pos = self.pos + 1;
                proof {
                    let s = old(self).data@.subrange(p as int, p + 1);
                    assert(le_value(s.drop_first()) == 0);
                }
                Ok(v)
            },
            None => Err(ParseError::UnexpectedEof),
        }
    }

    pub fn read_u16(&mut self) -> (r: Result<u16, ParseError>)
        ensures
            final(self).data@ == old(self).data@,
            r is Ok <==> fits(old(self).data@, old(self).pos as int, 2),
            r matches Ok(v) ==> v as nat == le_at(old(self).data@, old(self).pos as int, 2)
                && final(self).pos == old(self).pos + 2,
            r matches Err(e) ==> e == ParseError::UnexpectedEof,
    {
        match self.start_of(2) {
            Some(p) => {
                let v = le_u16_at(self.data.as_slice(), p);
                self.pos = self.pos + 2;
                Ok(v)
            },
            None => Err(ParseError::UnexpectedEof),
        }
    }

    pub fn read_u32(&mut self) -> (r: Result<u32, ParseError>)
        ensures
            final(self).data@ == old(self).data@,
            r is Ok <==> fits(old(self).data@, old(self).pos as int, 4),
            r matches Ok(v) ==> v as nat == le_at(old(self).data@, old(self).pos as int, 4)
                && final(self).pos == old(self).pos + 4,
            r matches Err(e) ==> e == ParseError::UnexpectedEof,
    {
        match self.start_of(4) {
            Some(p) => {
                let v = le_u32_at(self.data.as_slice(), p);
                self.pos = self.pos + 4;
                Ok(v)
            },
            None => Err(ParseError::UnexpectedEof),
        }
    }

    pub fn read_u64(&mut self) -> (r: Result<u64, ParseError>)
        ensures
            final(self).data@ == old(self).data@,
            r is Ok <==> fits(old(self).data@, old(self).pos as int, 8),
            r matches Ok(v) ==> v as nat == le_at(old(self).data@, old(self).pos as int, 8)
                && final(self).pos == old(self).pos + 8,
            r matches Err(e) ==> e == ParseError::UnexpectedEof,
    {
        match self.start_of(8) {
            Some(p) => {
                let v = le_u64_at(self.data.as_slice(), p);
                self.pos = self.pos + 8;
                Ok(v)
            },
            None => Err(ParseError::UnexpectedEof),
        }
    }
}

} // verus!
