use vstd::prelude::*;
use crate::error::CanvasError;

verus! {

/// Canvas width in pixels.
pub const WIDTH: u32 = 1920;

/// Canvas height in pixels.
pub const HEIGHT: u32 = 1080;

/// Length in bytes of a canvas image: one byte per pixel.
pub const IMAGE_LEN: usize = 2073600;

/// One pixel edit: a coordinate and the color byte to store there.
#[derive(Clone, Copy, Debug, PartialEq, Eq, Structural)]
pub struct PixelEdit {
    pub x: u16,
    pub y: u16,
    pub color: u8,
}

/// A single-byte write at a byte offset of the image blob.
#[derive(Clone, Copy, Debug, PartialEq, Eq, Structural)]
pub struct ByteWrite {
    pub offset: u32,
    pub value: u8,
}

pub open spec fn in_bounds(x: int, y: int) -> bool {
    0 <= x < WIDTH && 0 <= y < HEIGHT
}

/// Row-major position of a pixel in the image.
pub open spec fn offset_of(x: int, y: int) -> int {
    y * WIDTH + x
}

/// The byte write that stores `color` at pixel `(x, y)`, or the rejection of
/// a coordinate outside the canvas.
pub open spec fn pixel_write_spec(x: u16, y: u16, color: u8) -> Result<ByteWrite, CanvasError> {
    if in_bounds(x as int, y as int) {
        Ok(ByteWrite { offset: offset_of(x as int, y as int) as u32, value: color })
    } else {
        Err(CanvasError::InvalidCoordinate)
    }
}

/// A fresh canvas: every pixel zero.
pub open spec fn blank_spec() -> Seq<u8> {
    Seq::new(IMAGE_LEN as nat, |i: int| 0u8)
}

/// The image after a byte write.
pub open spec fn apply_write(image: Seq<u8>, w: ByteWrite) -> Seq<u8> {
    image.update(w.offset as int, w.value)
}

pub proof fn lemma_offset_in_image(x: int, y: int)
    requires
        in_bounds(x, y),
    ensures
        0 <= offset_of(x, y) < IMAGE_LEN,
{
    assert(0 <= y * 1920 <= 1079 * 1920) by (nonlinear_arith)
        requires
            0 <= y <= 1079,
    ;
}

/// Distinct pixels occupy distinct bytes.
pub proof fn lemma_offset_injective(x1: int, y1: int, x2: int, y2: int)
    requires
        in_bounds(x1, y1),
        in_bounds(x2, y2),
        offset_of(x1, y1) == offset_of(x2, y2),
    ensures
        x1 == x2,
        y1 == y2,
{
    assert(y1 == y2 && x1 == x2) by (nonlinear_arith)
        requires
            0 <= x1 < 1920,
            0 <= x2 < 1920,
            y1 * 1920 + x1 == y2 * 1920 + x2,
    ;
}

/// Validates a pixel edit against the canvas bounds and gives the byte write
/// that performs it.
pub fn plan_pixel_write(x: u16, y: u16, color: u8) -> (r: Result<ByteWrite, CanvasError>)
    ensures
        r == pixel_write_spec(x, y, color),
        r matches Ok(w) ==> 0 <= w.offset < IMAGE_LEN,
{
    if (x as u32) < WIDTH && (y as u32) < HEIGHT {
        proof {
            lemma_offset_in_image(x as int, y as int);
        }
        let offset: u32 = (y as u32) * WIDTH + (x as u32);
        Ok(ByteWrite { offset, value: color })
    } else {
        Err(CanvasError::InvalidCoordinate)
    }
}

/// The bit offset of a byte write, as the store's bit-field command addresses it.
pub fn bit_offset(w: &ByteWrite) -> (r: u64)
    ensures
        r == 8 * w.offset,
{
    8 * (w.offset as u64)
}

/// A blank canvas image.
pub fn blank_image() -> (r: Vec<u8>)
    ensures
        r@ == blank_spec(),
{
    let v: Vec<u8> = vec![0u8; IMAGE_LEN];
    assert(v@ =~= blank_spec());
    v
}

} // verus!
