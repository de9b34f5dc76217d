//! Peek-or-consume reads of fixed-width big-endian unsigned integers out of an
//! immutable byte buffer, tracking a current offset. Every read checks bounds
//! and fails with `TruncatedBuffer` instead of running past the end.

use vstd::prelude::*;

use crate::error::ExtabDecodeError;

verus! {

/// The 16-bit big-endian value stored at byte offset `i` of `s`.
pub open spec fn be16(s: Seq<u8>, i: int) -> u16 {
    ((s[i] as u16) << 8) | (s[i + 1] as u16)
}

/// The 32-bit big-endian value stored at byte offset `i` of `s`.
pub open spec fn be32(s: Seq<u8>, i: int) -> u32 {
    ((s[i] as u32) << 24) | ((s[i + 1] as u32) << 16) | ((s[i + 2] as u32) << 8) | (s[i + 3]
        as u32)
}

/// Reads the byte at `*off`. If `advance` is set the cursor moves past it;
/// otherwise the read is a peek and the cursor is unchanged.
pub fn read_byte(data: &[u8], off: &mut usize, advance: bool) -> (r: Result<
    u8,
    ExtabDecodeError,
>)
    requires
        *old(off) <= data@.len(),
    ensures
        *old(off) + 1 <= data@.len() ==> (r matches Ok(v) && v == data@[*old(off) as int]
            && *final(off) == (if advance {
            *old(off) + 1
        } else {
            *old(off) as int
        })),
        *old(off) + 1 > data@.len() ==> (r matches Err(e) && e
            == ExtabDecodeError::TruncatedBuffer && *final(off) == *old(off)),
{
    if data.len() - *off < 1 {
        return Err(ExtabDecodeError::TruncatedBuffer);
    }
    let v = data[*off];
    if advance {
        *off = *off + 1;
    }
    Ok(v)
}

/// Reads the 16-bit big-endian value at `*off`. If `advance` is set the cursor
/// moves past it; otherwise the read is a peek and the cursor is unchanged.
pub fn read_uint16(data: &[u8], off: &mut usize, advance: bool) -> (r: Result<
    u16,
    ExtabDecodeError,
>)
    requires
        *old(off) <= data@.len(),
    ensures
        *old(off) + 2 <= data@.len() ==> (r matches Ok(v) && v == be16(data@, *old(off) as int)
            && *final(off) == (if advance {
            *old(off) + 2
        } else {
            *old(off) as int
        })),
        *old(off) + 2 > data@.len() ==> (r matches Err(e) && e
            == ExtabDecodeError::TruncatedBuffer && *final(off) == *old(off)),
{
    if data.len() - *off < 2 {
        return Err(ExtabDecodeError::TruncatedBuffer);
    }
    let b0 = data[*off];
    let b1 = data[*off + 1];
    let v = ((b0 as u16) << 8) | (b1 as u16);
    if advance {
        *off = *off + 2;
    }
    Ok(v)
}

/// Reads the 32-bit big-endian value at `*off`. If `advance` is set the cursor
/// moves past it; otherwise the read is a peek and the cursor is unchanged.
pub fn read_uint32(data: &[u8], off: &mut usize, advance: bool) -> (r: Result<
    u32,
    ExtabDecodeError,
>)
    requires
        *old(off) <= data@.len(),
    ensures
        *old(off) + 4 <= data@.len() ==> (r matches Ok(v) && v == be32(data@, *old(off) as int)
            && *final(off) == (if advance {
            *old(off) + 4
        } else {
            *old(off) as int
        })),
        *old(off) + 4 > data@.len() ==> (r matches Err(e) && e
            == ExtabDecodeError::TruncatedBuffer && *final(off) == *old(off)),
{
    if data.len() - *off < 4 {
        return Err(ExtabDecodeError::TruncatedBuffer);
    }
    let b0 = data[*off];
    let b1 = data[*off + 1];
    let b2 = data[*off + 2];
    let b3 = data[*off + 3];
    let v = ((b0 as u32) << 24) | ((b1 as u32) << 16) | ((b2 as u32) << 8) | (b3 as u32);
    if advance {
        *off = *off + 4;
    }
    Ok(v)
}

} // verus!
