//! Primitive decoders and cursor helpers shared by all record readers.

use vstd::prelude::*;

use crate::constants::SIGNATURE_HEADER_LOCAL_FILE;
use crate::cursor::ByteCursor;
use crate::errors::ArchiveReadError;
use crate::errors::ReadNumberFromBytesError;
use crate::format::cap_end;
use crate::format::chars_of;
use crate::format::le16_value;
use crate::format::le32_at;
use crate::format::le32_value;
use crate::format::take_bytes;

verus! {

/// Appends one character to a string.
///
/// Relies on `String::push`: the pushed character is appended at the end
/// and the rest of the string is unchanged.
#[verifier::external_body]
fn push_char(s: &mut String, c: char)
    ensures
        final(s)@ == old(s)@.push(c),
{
    s.push(c);
}

/// Reads a chunk of up to `chunk_size` bytes at the cursor, advancing it.
///
/// A read past the end of the input returns a short (possibly empty)
/// chunk; the caller must check the returned length.
pub fn read_chunk(cursor: &mut ByteCursor, chunk_size: usize) -> (chunk: Vec<u8>)
    requires
        old(cursor).wf(),
    ensures
        final(cursor).wf(),
        final(cursor).data@ == old(cursor).data@,
        chunk@ == take_bytes(old(cursor).data@, old(cursor).pos as int, chunk_size as int),
        final(cursor).pos == cap_end(old(cursor).data@, old(cursor).pos as int, chunk_size as int),
{
    let mut chunk: Vec<u8> = Vec::new();
    let mut count: usize = 0;
    while count < chunk_size && cursor.pos < cursor.data.len()
        invariant
            cursor.wf(),
            cursor.data@ == old(cursor).data@,
            count <= chunk_size,
            cursor.pos == old(cursor).pos + count,
            chunk@ == old(cursor).data@.subrange(old(cursor).pos as int, cursor.pos as int),
        decreases chunk_size - count,
    {
        let b = cursor.data[cursor.pos];
        chunk.push(b);
        cursor.pos = cursor.pos + 1;
        count = count + 1;
    }
    proof {
        assert(chunk@ =~= take_bytes(
            old(cursor).data@,
            old(cursor).pos as int,
            chunk_size as int,
        ));
    }
    chunk
}

/// Names the file kind that a 4-byte chunk read at the start of a file
/// announces: `"zip"` when the chunk is the local-file-header signature,
/// `"unknown"` otherwise.
pub fn check_signature(chunk: Vec<u8>) -> (kind: String)
    requires
        chunk@.len() == 4,
    ensures
        kind@ == (if le32_value(chunk@) == SIGNATURE_HEADER_LOCAL_FILE {
            "zip"@
        } else {
            "unknown"@
        }),
{
    let number = match read_u32_le(chunk.as_slice()) {
        Ok(v) => v,
        Err(_) => {
            return "unknown".to_owned();
        },
    };
    if number == SIGNATURE_HEADER_LOCAL_FILE {
        "zip".to_owned()
    } else {
        "unknown".to_owned()
    }
}

/// Compares the next 4 bytes of the input to the given signature.
///
/// The 4 bytes stay consumed only when the signature matches; on a
/// mismatch the cursor is rewound to its pre-probe position. When fewer
/// than 4 bytes remain, the probe fails and the cursor is left at the end
/// of the input.
pub fn compare_signature(cursor: &mut ByteCursor, signature: u32) -> (r: Result<
    bool,
    ArchiveReadError,
>)
    requires
        old(cursor).wf(),
    ensures
        final(cursor).wf(),
        final(cursor).data@ == old(cursor).data@,
        old(cursor).pos + 4 <= old(cursor).data@.len() ==> (r matches Ok(b) && b == (le32_at(
            old(cursor).data@,
            old(cursor).pos as int,
        ) == signature) && final(cursor).pos == (if b {
            old(cursor).pos + 4
        } else {
            old(cursor).pos as int
        })),
        old(cursor).pos + 4 > old(cursor).data@.len() ==> (r matches Err(e) && e
            == ArchiveReadError::InputTruncated && final(cursor).pos == old(cursor).data@.len()),
{
    let chunk = read_chunk(cursor, 4);
    if chunk.len() < 4 {
        return Err(ArchiveReadError::InputTruncated);
    }
    compare_signature_raw(cursor, chunk.as_slice(), signature, true)
}

/// Compares an already-read 4-byte chunk to a signature.
///
/// On a mismatch the cursor is rewound 4 bytes, as if the chunk had never
/// been read, unless `rewind_on_mismatch` is false (useful when the caller
/// probes several signatures against one chunk in sequence).
pub fn compare_signature_raw(
    cursor: &mut ByteCursor,
    signature_1: &[u8],
    signature_2: u32,
    rewind_on_mismatch: bool,
) -> (r: Result<bool, ArchiveReadError>)
    requires
        old(cursor).wf(),
    ensures
        final(cursor).wf(),
        final(cursor).data@ == old(cursor).data@,
        signature_1@.len() != 4 ==> (r matches Err(e) && e == ArchiveReadError::IntegerDecode
            && final(cursor).pos == old(cursor).pos),
        signature_1@.len() == 4 ==> {
            let signature_match = le32_value(signature_1@) == signature_2;
            if signature_match || !rewind_on_mismatch {
                r matches Ok(b) && b == signature_match && final(cursor).pos == old(cursor).pos
            } else if old(cursor).pos >= 4 {
                r matches Ok(b) && !b && final(cursor).pos == old(cursor).pos - 4
            } else {
                r matches Err(e) && e == ArchiveReadError::SeekFailure && final(cursor).pos
                    == old(cursor).pos
            }
        },
{
    let value = match read_u32_le(signature_1) {
        Ok(v) => v,
        Err(_) => {
            return Err(ArchiveReadError::IntegerDecode);
        },
    };
    let signature_match = value == signature_2;
    if !signature_match && rewind_on_mismatch {
        match rewind_file_cursor(cursor, 4) {
            Ok(()) => {},
            Err(e) => {
                return Err(e);
            },
        }
    }
    Ok(signature_match)
}

/// Reports whether at least `number_of_bytes` bytes remain between the
/// cursor and the end of the input.
pub fn file_has_remaining_space(cursor: &mut ByteCursor, number_of_bytes: u32) -> (r: Result<
    bool,
    ArchiveReadError,
>)
    requires
        old(cursor).wf(),
    ensures
        final(cursor).wf(),
        final(cursor).data@ == old(cursor).data@,
        final(cursor).pos == old(cursor).pos,
        r matches Ok(b) && b == (old(cursor).data@.len() - old(cursor).pos
            >= number_of_bytes),
{
    let rem = cursor.data.len() - cursor.pos;
    Ok(rem >= number_of_bytes as usize)
}

/// Rewinds the cursor by `number_of_bytes` bytes. Rewinding past the
/// start of the input fails and leaves the cursor unchanged.
pub fn rewind_file_cursor(cursor: &mut ByteCursor, number_of_bytes: usize) -> (r: Result<
    (),
    ArchiveReadError,
>)
    requires
        old(cursor).wf(),
    ensures
        final(cursor).wf(),
        final(cursor).data@ == old(cursor).data@,
        number_of_bytes <= old(cursor).pos ==> (r matches Ok(_) && final(cursor).pos == old(
            cursor,
        ).pos - number_of_bytes),
        number_of_bytes > old(cursor).pos ==> (r matches Err(e) && e
            == ArchiveReadError::SeekFailure && final(cursor).pos == old(cursor).pos),
{
    if number_of_bytes > cursor.pos {
        return Err(ArchiveReadError::SeekFailure);
    }
    cursor.pos = cursor.pos - number_of_bytes;
    Ok(())
}

/// Decodes a 32-bit little-endian unsigned integer from an exact 4-byte
/// slice.
pub fn read_u32_le(chunk: &[u8]) -> (r: Result<u32, ReadNumberFromBytesError>)
    ensures
        match r {
            Ok(v) => chunk@.len() == 4 && v == le32_value(chunk@),
            Err(ReadNumberFromBytesError::TooManyBytes) => chunk@.len() > 4,
            Err(ReadNumberFromBytesError::NotEnoughBytes) => chunk@.len() < 4,
        },
{
    if chunk.len() > 4 {
        return Err(ReadNumberFromBytesError::TooManyBytes);
    } else if chunk.len() < 4 {
        return Err(ReadNumberFromBytesError::NotEnoughBytes);
    }
    Ok(
        chunk[0] as u32 + (chunk[1] as u32) * 0x100 + (chunk[2] as u32) * 0x10000 + (
        chunk[3] as u32) * 0x1000000,
    )
}

/// Decodes a 16-bit little-endian unsigned integer from an exact 2-byte
/// slice.
pub fn read_u16_le(chunk: &[u8]) -> (r: Result<u16, ReadNumberFromBytesError>)
    ensures
        match r {
            Ok(v) => chunk@.len() == 2 && v == le16_value(chunk@),
            Err(ReadNumberFromBytesError::TooManyBytes) => chunk@.len() > 2,
            Err(ReadNumberFromBytesError::NotEnoughBytes) => chunk@.len() < 2,
        },
{
    if chunk.len() > 2 {
        return Err(ReadNumberFromBytesError::TooManyBytes);
    } else if chunk.len() < 2 {
        return Err(ReadNumberFromBytesError::NotEnoughBytes);
    }
    Ok(chunk[0] as u16 + (chunk[1] as u16) * 0x100)
}

/// Decodes a string from raw bytes: each byte becomes the character with
/// the same code point.
pub fn read_string_bytes(chunk: &[u8]) -> (s: String)
    ensures
        s@ == chars_of(chunk@),
{
    let mut s = String::new();
    let mut i: usize = 0;
    while i < chunk.len()
        invariant
            i <= chunk@.len(),
            s@ == chars_of(chunk@.subrange(0, i as int)),
        decreases chunk@.len() - i,
    {
        let b = chunk[i];
        push_char(&mut s, b as char);
        proof {
            assert(s@ =~= chars_of(chunk@.subrange(0, i as int + 1)));
        }
        i = i + 1;
    }
    proof {
        assert(chunk@.subrange(0, chunk@.len() as int) =~= chunk@);
    }
    s
}

} // verus!
