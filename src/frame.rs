use vstd::prelude::*;
use crate::canvas::PixelEdit;
use crate::error::CanvasError;

verus! {

/// Length of a pixel-edit frame.
pub const FRAME_LEN: usize = 5;

pub open spec fn be_u16(hi: u8, lo: u8) -> u16 {
    (hi as int * 256 + lo as int) as u16
}

/// A frame is exactly five bytes: x and y as big-endian 16-bit integers, then
/// the color byte.
pub open spec fn decode_spec(frame: Seq<u8>) -> Result<PixelEdit, CanvasError> {
    if frame.len() == FRAME_LEN {
        Ok(PixelEdit { x: be_u16(frame[0], frame[1]), y: be_u16(frame[2], frame[3]), color: frame[4] })
    } else {
        Err(CanvasError::ProtocolError)
    }
}

/// The frame that encodes an edit.
pub open spec fn encode_spec(e: PixelEdit) -> Seq<u8> {
    seq![(e.x / 256) as u8, (e.x % 256) as u8, (e.y / 256) as u8, (e.y % 256) as u8, e.color]
}

/// Decodes one inbound pixel-edit frame.
pub fn decode_frame(frame: &[u8]) -> (r: Result<PixelEdit, CanvasError>)
    ensures
        r == decode_spec(frame@),
{
    if frame.len() != FRAME_LEN {
        return Err(CanvasError::ProtocolError);
    }
    let x: u16 = (frame[0] as u16) * 256 + (frame[1] as u16);
    let y: u16 = (frame[2] as u16) * 256 + (frame[3] as u16);
    Ok(PixelEdit { x, y, color: frame[4] })
}

/// Decoding the encoding of an edit gives the edit back.
pub proof fn lemma_decode_encode(e: PixelEdit)
    ensures
        decode_spec(encode_spec(e)) == Ok::<PixelEdit, CanvasError>(e),
{
}

} // verus!
