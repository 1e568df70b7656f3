//! The scalar codec: fixed-width little-endian reads from a byte buffer.
//!
//! Every reader takes the whole buffer and a position, and returns the value
//! together with the position just past it. A read fails with
//! [`DecodeError::UnexpectedEof`] exactly when fewer bytes remain than the
//! value's width; the buffer itself is never modified.

use vstd::prelude::*;

use crate::error::DecodeError;

verus! {

/// The little-endian 16-bit value stored at `pos`.
pub open spec fn le16(b: Seq<u8>, pos: int) -> u16 {
    (b[pos] as u16) | ((b[pos + 1] as u16) << 8)
}

/// The little-endian 32-bit value stored at `pos`.
pub open spec fn le32(b: Seq<u8>, pos: int) -> u32 {
    (b[pos] as u32) | ((b[pos + 1] as u32) << 8) | ((b[pos + 2] as u32) << 16)
        | ((b[pos + 3] as u32) << 24)
}

/// Reinterprets an unsigned byte as two's-complement signed.
pub open spec fn as_i8(v: u8) -> i8 {
    if v < 0x80 {
        v as i8
    } else {
        (v - 0x100) as i8
    }
}

/// Reinterprets an unsigned 16-bit value as two's-complement signed.
pub open spec fn as_i16(v: u16) -> i16 {
    if v < 0x8000 {
        v as i16
    } else {
        (v - 0x1_0000) as i16
    }
}

/// Reinterprets an unsigned 32-bit value as two's-complement signed.
pub open spec fn as_i32(v: u32) -> i32 {
    if v < 0x8000_0000 {
        v as i32
    } else {
        (v - 0x1_0000_0000) as i32
    }
}

pub fn read_u8(b: &Vec<u8>, pos: usize) -> (r: Result<(u8, usize), DecodeError>)
    requires
        pos <= b@.len(),
    ensures
        match r {
            Ok(vp) => pos + 1 <= b@.len() && vp.0 == b@[pos as int] && vp.1 == pos + 1,
            Err(e) => pos + 1 > b@.len() && e == DecodeError::UnexpectedEof,
        },
{
    if b.len() - pos >= 1 {
        Ok((b[pos], pos + 1))
    } else {
        Err(DecodeError::UnexpectedEof)
    }
}

pub fn read_i8(b: &Vec<u8>, pos: usize) -> (r: Result<(i8, usize), DecodeError>)
    requires
        pos <= b@.len(),
    ensures
        match r {
            Ok(vp) => pos + 1 <= b@.len() && vp.0 == as_i8(b@[pos as int]) && vp.1 == pos + 1,
            Err(e) => pos + 1 > b@.len() && e == DecodeError::UnexpectedEof,
        },
{
    if b.len() - pos >= 1 {
        let v: u8 = b[pos];
        let s: i8 = if v < 0x80 {
            v as i8
        } else {
            ((v as i16) - 0x100) as i8
        };
        Ok((s, pos + 1))
    } else {
        Err(DecodeError::UnexpectedEof)
    }
}

pub fn read_u16(b: &Vec<u8>, pos: usize) -> (r: Result<(u16, usize), DecodeError>)
    requires
        pos <= b@.len(),
    ensures
        match r {
            Ok(vp) => pos + 2 <= b@.len() && vp.0 == le16(b@, pos as int) && vp.1 == pos + 2,
            Err(e) => pos + 2 > b@.len() && e == DecodeError::UnexpectedEof,
        },
{
    if b.len() - pos >= 2 {
        let v: u16 = (b[pos] as u16) | ((b[pos + 1] as u16) << 8);
        Ok((v, pos + 2))
    } else {
        Err(DecodeError::UnexpectedEof)
    }
}

pub fn read_i16(b: &Vec<u8>, pos: usize) -> (r: Result<(i16, usize), DecodeError>)
    requires
        pos <= b@.len(),
    ensures
        match r {
            Ok(vp) => pos + 2 <= b@.len() && vp.0 == as_i16(le16(b@, pos as int)) && vp.1 == pos
                + 2,
            Err(e) => pos + 2 > b@.len() && e == DecodeError::UnexpectedEof,
        },
{
    match read_u16(b, pos) {
        Ok((v, p)) => {
            let s: i16 = if v < 0x8000 {
                v as i16
            } else {
                ((v as i32) - 0x1_0000) as i16
            };
            Ok((s, p))
        },
        Err(e) => Err(e),
    }
}

pub fn read_u32(b: &Vec<u8>, pos: usize) -> (r: Result<(u32, usize), DecodeError>)
    requires
        pos <= b@.len(),
    ensures
        match r {
            Ok(vp) => pos + 4 <= b@.len() && vp.0 == le32(b@, pos as int) && vp.1 == pos + 4,
            Err(e) => pos + 4 > b@.len() && e == DecodeError::UnexpectedEof,
        },
{
    if b.len() - pos >= 4 {
        let v: u32 = (b[pos] as u32) | ((b[pos + 1] as u32) << 8) | ((b[pos + 2] as u32) << 16)
            | ((b[pos + 3] as u32) << 24);
        Ok((v, pos + 4))
    } else {
        Err(DecodeError::UnexpectedEof)
    }
}

pub fn read_i32(b: &Vec<u8>, pos: usize) -> (r: Result<(i32, usize), DecodeError>)
    requires
        pos <= b@.len(),
    ensures
        match r {
            Ok(vp) => pos + 4 <= b@.len() && vp.0 == as_i32(le32(b@, pos as int)) && vp.1 == pos
                + 4,
            Err(e) => pos + 4 > b@.len() && e == DecodeError::UnexpectedEof,
        },
{
    match read_u32(b, pos) {
        Ok((v, p)) => {
            let s: i32 = if v < 0x8000_0000 {
                v as i32
            } else {
                ((v as i64) - 0x1_0000_0000) as i32
            };
            Ok((s, p))
        },
        Err(e) => Err(e),
    }
}

/// The byte at `pos`, for callers that have already checked the bound.
pub fn get_u8(b: &Vec<u8>, pos: usize) -> (r: u8)
    requires
        pos + 1 <= b@.len(),
    ensures
        r == b@[pos as int],
{
    b[pos]
}

/// The signed byte at `pos`, for callers that have already checked the bound.
pub fn get_i8(b: &Vec<u8>, pos: usize) -> (r: i8)
    requires
        pos + 1 <= b@.len(),
    ensures
        r == as_i8(b@[pos as int]),
{
    let v: u8 = b[pos];
    if v < 0x80 {
        v as i8
    } else {
        ((v as i16) - 0x100) as i8
    }
}

/// The little-endian 16-bit value at `pos`, for callers that have already
/// checked the bound.
pub fn get_u16(b: &Vec<u8>, pos: usize) -> (r: u16)
    requires
        pos + 2 <= b@.len(),
    ensures
        r == le16(b@, pos as int),
{
    let _len: usize = b.len();
    (b[pos] as u16) | ((b[pos + 1] as u16) << 8)
}

/// The signed little-endian 16-bit value at `pos`, for callers that have
/// already checked the bound.
pub fn get_i16(b: &Vec<u8>, pos: usize) -> (r: i16)
    requires
        pos + 2 <= b@.len(),
    ensures
        r == as_i16(le16(b@, pos as int)),
{
    let v: u16 = get_u16(b, pos);
    if v < 0x8000 {
        v as i16
    } else {
        ((v as i32) - 0x1_0000) as i16
    }
}

/// The little-endian 32-bit value at `pos`, for callers that have already
/// checked the bound.
pub fn get_u32(b: &Vec<u8>, pos: usize) -> (r: u32)
    requires
        pos + 4 <= b@.len(),
    ensures
        r == le32(b@, pos as int),
{
    let _len: usize = b.len();
    (b[pos] as u32) | ((b[pos + 1] as u32) << 8) | ((b[pos + 2] as u32) << 16) | ((b[pos
        + 3] as u32) << 24)
}

/// The signed little-endian 32-bit value at `pos`, for callers that have
/// already checked the bound.
pub fn get_i32(b: &Vec<u8>, pos: usize) -> (r: i32)
    requires
        pos + 4 <= b@.len(),
    ensures
        r == as_i32(le32(b@, pos as int)),
{
    let v: u32 = get_u32(b, pos);
    if v < 0x8000_0000 {
        v as i32
    } else {
        ((v as i64) - 0x1_0000_0000) as i32
    }
}

/// Advances past `n` reserved or padding bytes without producing a value.
pub fn skip(b: &Vec<u8>, pos: usize, n: usize) -> (r: Result<usize, DecodeError>)
    requires
        pos <= b@.len(),
    ensures
        match r {
            Ok(p) => pos + n <= b@.len() && p == pos + n,
            Err(e) => pos + n > b@.len() && e == DecodeError::UnexpectedEof,
        },
{
    if b.len() - pos >= n {
        Ok(pos + n)
    } else {
        Err(DecodeError::UnexpectedEof)
    }
}

/// Copies `b[pos .. pos + n]` into a fresh buffer.
pub fn copy_range(b: &Vec<u8>, pos: usize, n: usize) -> (r: Vec<u8>)
    requires
        pos + n <= b@.len(),
    ensures
        r@ == b@.subrange(pos as int, pos + n),
{
    let len: usize = b.len();
    let mut out: Vec<u8> = Vec::new();
    let mut i: usize = 0;
    while i < n
        invariant
            pos + n <= b@.len(),
            b@.len() == len,
            i <= n,
            out@ =~= b@.subrange(pos as int, pos + i),
        decreases n - i,
    {
        out.push(b[pos + i]);
        proof {
            assert(out@ =~= b@.subrange(pos as int, pos + i + 1));
        }
        i = i + 1;
    }
    out
}

} // verus!
