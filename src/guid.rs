use vstd::prelude::*;

use crate::bytes::{fits, le_value, Reader};
use crate::error::ParseError;

verus! {

/// A globally unique identifier, held as the 128-bit number that its usual
/// textual form (`7B5C52E4-D88C-4DA7-AEB1-5378D02996D3`) spells in hexadecimal.
#[derive(Clone, Copy, Debug, PartialEq, Eq, Structural)]
pub struct Guid {
    pub value: u128,
}

/// The value of the GUID stored in the sixteen bytes `b`: the first three fields
/// (4, 2 and 2 bytes) little-endian, the last eight bytes in order. Listed here
/// from the least significant byte of the value up.
pub open spec fn guid_value(b: Seq<u8>) -> nat {
    le_value(
        seq![
            b[15], b[14], b[13], b[12], b[11], b[10], b[9], b[8],
            b[6], b[7], b[4], b[5], b[0], b[1], b[2], b[3],
        ],
    )
}

/// The GUID stored at `pos` of `data`.
pub open spec fn guid_at(data: Seq<u8>, pos: int) -> Guid {
    Guid { value: guid_value(data.subrange(pos, pos + 16)) as u128 }
}

/// Relies on uuid's `Uuid::from_bytes_le`, which stores the first three fields
/// little-endian and the last eight bytes as given, and on `Uuid::as_u128`, which
/// reads the resulting sixteen bytes as a big-endian number.
#[verifier::external_body]
fn uuid_le_value_at(data: &[u8], pos: usize) -> (r: u128)
    requires
        pos + 16 <= data@.len(),
    ensures
        r as nat == guid_value(data@.subrange(pos as int, pos + 16)),
{
    let bytes: [u8; 16] = data[pos..pos + 16].try_into().unwrap();
    uuid::Uuid::from_bytes_le(bytes).as_u128()
}

impl Guid {
    /// Reads a GUID stored in its little-endian form.
    pub fn from_reader(reader: &mut Reader) -> (r: Result<Guid, ParseError>)
        ensures
            final(reader).data@ == old(reader).data@,
            r is Ok <==> fits(old(reader).data@, old(reader).pos as int, 16),
            r matches Ok(g) ==> g == guid_at(old(reader).data@, old(reader).pos as int)
                && final(reader).pos == old(reader).pos + 16,
            r matches Err(e) ==> e == ParseError::UnexpectedEof,
    {
        let len = reader.data.len() as u64;
        if reader.pos <= len && 16 <= len - reader.pos {
            let p = reader.pos as usize;
            let value = uuid_le_value_at(reader.data.as_slice(), p);
            reader.pos = reader.pos + 16;
            Ok(Guid { value })
        } else {
            Err(ParseError::UnexpectedEof)
        }
    }

    /// Whether this is the nil GUID, all of whose bytes are zero.
    pub fn is_nil(&self) -> (r: bool)
        ensures
            r == (self.value == 0),
    {
        self.value == 0
    }
}

} // verus!
