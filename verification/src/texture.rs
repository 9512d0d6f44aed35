//! How a decoded image lies in memory when it is copied into the texture.

use vstd::prelude::*;

verus! {

/// Bytes of one pixel: red, green, blue and alpha, one byte each.
pub const BYTES_PER_PIXEL: u32 = 4;

/// Where the rows of an image are found in the bytes that hold it.
#[derive(Copy, Clone, Debug, PartialEq, Eq, Structural)]
pub struct ImageDataLayout {
    /// Byte at which the first row starts.
    pub offset: u64,
    /// Bytes from the start of one row to the start of the next.
    pub bytes_per_row: u32,
    pub rows_per_image: u32,
}

/// Number of bytes of a row-major image of `width` by `height` pixels.
pub open spec fn image_byte_len(width: u32, height: u32) -> nat {
    (BYTES_PER_PIXEL * width * height) as nat
}

/// `pixel_bytes` bytes can be a tightly packed image of `width` by `height`
/// pixels that has an area and whose row length fits the layout.
pub open spec fn is_packed_image(width: u32, height: u32, pixel_bytes: nat) -> bool {
    &&& width > 0
    &&& height > 0
    &&& BYTES_PER_PIXEL * width <= u32::MAX
    &&& pixel_bytes == image_byte_len(width, height)
}

/// The layout of a decoded image of `width` by `height` pixels held in
/// `pixels`, row after row without padding. There is none if the image has
/// no area, if a row is too long to describe, or if `pixels` has another
/// length than such an image has.
pub fn image_data_layout(width: u32, height: u32, pixels: &[u8]) -> (layout: Option<
    ImageDataLayout,
>)
    ensures
        layout is Some <==> is_packed_image(width, height, pixels@.len()),
        layout matches Some(l) ==> {
            &&& l.offset == 0
            &&& l.bytes_per_row == BYTES_PER_PIXEL * width
            &&& l.rows_per_image == height
            &&& l.bytes_per_row * l.rows_per_image == pixels@.len()
        },
{
    if width == 0 || height == 0 || width > u32::MAX / BYTES_PER_PIXEL {
        return None;
    }
    let bytes_per_row: u32 = BYTES_PER_PIXEL * width;
    assert(bytes_per_row * height <= 0xffff_ffff * 0xffff_ffff) by (nonlinear_arith)
        requires
            bytes_per_row <= 0xffff_ffff,
            height <= 0xffff_ffff,
    ;
    assert(BYTES_PER_PIXEL * width * height == bytes_per_row * height);
    let expected: u64 = bytes_per_row as u64 * height as u64;
    if pixels.len() as u64 == expected {
        Some(ImageDataLayout { offset: 0, bytes_per_row, rows_per_image: height })
    } else {
        None
    }
}

} // verus!
