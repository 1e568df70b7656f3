//! The level assembler: the top-level sequence of one whole level file.
//!
//! In order: a version tag, three 16-bit image-category counts, a compressed
//! list of 32-bit-pixel images whose count is the sum of the three counts, a
//! compressed list of 16-bit-pixel images with the same count, a compressed
//! pair of misc images, one compressed [`LevelData`] block, and a plain list
//! of raw audio samples. Decoding fails fast on the first structural error;
//! no partial [`Level`] is ever returned.

use vstd::prelude::*;

use crate::bytes::{le16, le32, get_u16, get_u32};
use crate::codec::{
    decode_chunks, decode_list_p32, inflate_zlib, read_zlib_block, spec_decode_chunks,
    spec_decode_list_p32, spec_zlib_frame, views_of, Decode,
};
use crate::error::DecodeError;
use crate::model::{Level, LevelData, Sample, SpecLevel, IMAGE16_BYTES, IMAGE32_BYTES};
use crate::varsize::spec_decode_level_data;

verus! {

/// The number of texture images in each of the two main image lists: the sum
/// of the three image-category counts in the file header.
pub open spec fn spec_image_total(b: Seq<u8>) -> int {
    le16(b, 4) + le16(b, 6) + le16(b, 8)
}

/// The meaning of a whole level file: the decoded [`Level`] (as its view), or
/// the error the bytes force. [`DecodeError::UnexpectedEof`] wherever bytes
/// run short — in the outer stream or inside an inflated buffer — and
/// [`DecodeError::DecompressionError`] wherever a compressed block's bytes
/// are not valid zlib data.
pub open spec fn spec_read_level(b: Seq<u8>) -> Result<SpecLevel, DecodeError> {
    if b.len() < 10 {
        Err(DecodeError::UnexpectedEof)
    } else {
        match spec_zlib_frame(b, 10) {
            None => Err(DecodeError::UnexpectedEof),
            Some(f1) => match inflate_zlib(f1.0) {
                None => Err(DecodeError::DecompressionError),
                Some(d1) => match spec_decode_chunks(
                    d1,
                    0,
                    spec_image_total(b) as nat,
                    IMAGE32_BYTES as nat,
                ) {
                    None => Err(DecodeError::UnexpectedEof),
                    Some(i32s) => match spec_zlib_frame(b, f1.1) {
                        None => Err(DecodeError::UnexpectedEof),
                        Some(f2) => match inflate_zlib(f2.0) {
                            None => Err(DecodeError::DecompressionError),
                            Some(d2) => match spec_decode_chunks(
                                d2,
                                0,
                                spec_image_total(b) as nat,
                                IMAGE16_BYTES as nat,
                            ) {
                                None => Err(DecodeError::UnexpectedEof),
                                Some(i16s) => match spec_zlib_frame(b, f2.1) {
                                    None => Err(DecodeError::UnexpectedEof),
                                    Some(f3) => match inflate_zlib(f3.0) {
                                        None => Err(DecodeError::DecompressionError),
                                        Some(d3) => match spec_decode_chunks(
                                            d3,
                                            0,
                                            2,
                                            IMAGE32_BYTES as nat,
                                        ) {
                                            None => Err(DecodeError::UnexpectedEof),
                                            Some(misc) => match spec_zlib_frame(b, f3.1) {
                                                None => Err(DecodeError::UnexpectedEof),
                                                Some(f4) => match inflate_zlib(f4.0) {
                                                    None => Err(DecodeError::DecompressionError),
                                                    Some(d4) => match spec_decode_level_data(
                                                        d4,
                                                        0,
                                                    ) {
                                                        None => Err(DecodeError::UnexpectedEof),
                                                        Some(ld) => match spec_decode_list_p32::<
                                                            Sample,
                                                        >(b, f4.1) {
                                                            None => Err(
                                                                DecodeError::UnexpectedEof,
                                                            ),
                                                            Some(smp) => Ok(
                                                                SpecLevel {
                                                                    version: le32(b, 0),
                                                                    num_room_images: le16(b, 4),
                                                                    num_obj_images: le16(b, 6),
                                                                    num_bump_maps: le16(b, 8),
                                                                    images_32: i32s.0,
                                                                    images_16: i16s.0,
                                                                    misc_images: misc.0,
                                                                    level_data: ld.0,
                                                                    samples: smp.0,
                                                                },
                                                            ),
                                                        },
                                                    },
                                                },
                                            },
                                        },
                                    },
                                },
                            },
                        },
                    },
                },
            },
        }
    }
}

/// Decodes one whole level file from its bytes.
///
/// The result is exactly what [`spec_read_level`] gives for these bytes:
/// decoding is a function of the bytes alone, success is owed precisely where
/// the spec is `Ok`, and the error returned is the one the bytes force.
/// The two main image lists hold the sum of the three header counts by
/// construction, and the misc pair always holds two images.
#[verifier::rlimit(50)]
pub fn read_level(b: &Vec<u8>) -> (r: Result<Level, DecodeError>)
    ensures
        match r {
            Ok(v) => spec_read_level(b@) == Ok::<SpecLevel, DecodeError>(v@) && v.images_32@.len()
                == v.num_room_images + v.num_obj_images + v.num_bump_maps && v.images_16@.len()
                == v.images_32@.len() && v.misc_images@.len() == 2,
            Err(e) => spec_read_level(b@) == Err::<SpecLevel, DecodeError>(e),
        },
{
    let len: usize = b.len();
    if len < 10 {
        return Err(DecodeError::UnexpectedEof);
    }
    let version = get_u32(b, 0);
    let num_room_images = get_u16(b, 4);
    let num_obj_images = get_u16(b, 6);
    let num_bump_maps = get_u16(b, 8);
    let total: usize = num_room_images as usize + num_obj_images as usize
        + num_bump_maps as usize;
    let (d1, p1) = match read_zlib_block(b, 10) {
        Ok(x) => x,
        Err(e) => { return Err(e) },
    };
    let (images_32, _e1) = match decode_chunks(&d1, 0, total, IMAGE32_BYTES) {
        Ok(x) => x,
        Err(e) => { return Err(e) },
    };
    let (d2, p2) = match read_zlib_block(b, p1) {
        Ok(x) => x,
        Err(e) => { return Err(e) },
    };
    let (images_16, _e2) = match decode_chunks(&d2, 0, total, IMAGE16_BYTES) {
        Ok(x) => x,
        Err(e) => { return Err(e) },
    };
    let (d3, p3) = match read_zlib_block(b, p2) {
        Ok(x) => x,
        Err(e) => { return Err(e) },
    };
    let (misc_images, _e3) = match decode_chunks(&d3, 0, 2, IMAGE32_BYTES) {
        Ok(x) => x,
        Err(e) => { return Err(e) },
    };
    let (d4, p4) = match read_zlib_block(b, p3) {
        Ok(x) => x,
        Err(e) => { return Err(e) },
    };
    let (level_data, _e4) = match crate::varsize::read_level_data(&d4, 0) {
        Ok(x) => x,
        Err(e) => { return Err(e) },
    };
    let (samples, _p5) = match decode_list_p32::<Sample>(b, p4) {
        Ok(x) => x,
        Err(e) => { return Err(e) },
    };
    Ok(
        Level {
            version,
            num_room_images,
            num_obj_images,
            num_bump_maps,
            images_32,
            images_16,
            misc_images,
            level_data,
            samples,
        },
    )
}

/// Decoding is deterministic: the same bytes always mean the same level tree,
/// or the same error. Together with [`read_level`]'s contract — its result
/// equals [`spec_read_level`] of its input — any two runs on equal bytes
/// return equal results.
pub proof fn lemma_decode_deterministic(b1: Seq<u8>, b2: Seq<u8>)
    requires
        b1 == b2,
    ensures
        spec_read_level(b1) == spec_read_level(b2),
{
}

/// A compressed section is isolated: the bytes inside the block decide only
/// whether inflation succeeds, never where the block ends. Two streams of the
/// same length whose declared compressed lengths agree frame their blocks at
/// the same end position, so a caller that hits
/// [`DecodeError::DecompressionError`] can resynchronize just past the block
/// (via [`crate::codec::read_zlib_frame`]) whatever the corrupt bytes were.
pub proof fn lemma_compressed_section_isolation(b1: Seq<u8>, b2: Seq<u8>, pos: int)
    requires
        b1.len() == b2.len(),
        pos + 8 <= b1.len() ==> le32(b1, pos + 4) == le32(b2, pos + 4),
    ensures
        (spec_zlib_frame(b1, pos) is Some) == (spec_zlib_frame(b2, pos) is Some),
        spec_zlib_frame(b1, pos) matches Some(f1) ==> (spec_zlib_frame(b2, pos) matches Some(f2)
            && f1.1 == f2.1),
{
}

} // verus!
