use vstd::prelude::*;
use r2d2_redis::redis::{Commands, Connection, RedisError};
use crate::canvas::{
    apply_write, bit_offset, blank_image, blank_spec, in_bounds, offset_of, pixel_write_spec,
    plan_pixel_write, ByteWrite, IMAGE_LEN,
};
use crate::error::CanvasError;

verus! {

#[verifier::external_type_specification]
#[verifier::external_body]
pub struct ExConnection(Connection);

#[verifier::external_type_specification]
#[verifier::external_body]
pub struct ExRedisError(RedisError);

/// Relies on redis's `Commands::get` (GET) read as `Option<Vec<u8>>`: the blob
/// stored at `key`, or `None` where the key is absent. What comes back depends
/// on the store, so nothing is promised of it.
#[verifier::external_body]
fn read_blob(con: &mut Connection, key: &String) -> (r: Result<Option<Vec<u8>>, RedisError>) {
    con.get(key)
}

/// Relies on redis's `Commands::set_nx` (SETNX): stores `blob` at `key` only
/// where the key is absent. Whether it did depends on the store.
#[verifier::external_body]
fn create_if_absent(con: &mut Connection, key: &String, blob: &Vec<u8>) -> (r: Result<bool, RedisError>) {
    con.set_nx(key, blob.as_slice())
}

/// Relies on redis's `cmd("BITFIELD")` with `SET u8 <bit offset> <value>`: one
/// atomic write of one byte inside the blob at `key`. The library only ever
/// addresses a whole byte of the image with it.
#[verifier::external_body]
fn bitfield_set_u8(con: &mut Connection, key: &String, bits: u64, value: u8) -> (r: Result<(), RedisError>)
    requires
        bits % 8 == 0,
        bits / 8 < IMAGE_LEN,
{
    r2d2_redis::redis::cmd("BITFIELD").arg(key).arg("SET").arg("u8").arg(bits).arg(value).query(con)
}

/// What the first read of a canvas leads to.
pub enum FetchStep {
    /// The canvas exists: return these bytes.
    Found(Vec<u8>),
    /// The canvas is absent: create it with this blob, then read it again.
    Create(Vec<u8>),
}

/// Decides on the reply of the first read of a canvas.
pub fn after_first_read(reply: Option<Vec<u8>>) -> (r: FetchStep)
    ensures
        reply matches Some(b) ==> r == FetchStep::Found(b),
        reply is None ==> (r matches FetchStep::Create(blob) && blob@ == blank_spec()),
{
    match reply {
        Some(b) => FetchStep::Found(b),
        None => FetchStep::Create(blank_image()),
    }
}

/// Decides on the reply of the read that follows the creation of a canvas: the
/// canvas must be there now.
pub fn after_reread(reply: Option<Vec<u8>>) -> (r: Result<Vec<u8>, CanvasError>)
    ensures
        reply matches Some(b) ==> r == Ok::<Vec<u8>, CanvasError>(b),
        reply is None ==> r == Err::<Vec<u8>, CanvasError>(CanvasError::StoreUnavailable),
{
    match reply {
        Some(b) => Ok(b),
        None => Err(CanvasError::StoreUnavailable),
    }
}

/// Returns the canvas image stored at `image_key`, first creating a blank one
/// where none exists. The creation is a set-if-absent, so concurrent first
/// fetches never overwrite each other.
pub fn fetch_or_init(con: &mut Connection, image_key: &String) -> (r: Result<Vec<u8>, CanvasError>)
    ensures
        r matches Err(e) ==> e == CanvasError::StoreUnavailable,
{
    let first = match read_blob(con, image_key) {
        Ok(reply) => reply,
        Err(_) => return Err(CanvasError::StoreUnavailable),
    };
    match after_first_read(first) {
        FetchStep::Found(image) => Ok(image),
        FetchStep::Create(blank) => {
            if create_if_absent(con, image_key, &blank).is_err() {
                return Err(CanvasError::StoreUnavailable);
            }
            match read_blob(con, image_key) {
                Ok(reply) => after_reread(reply),
                Err(_) => Err(CanvasError::StoreUnavailable),
            }
        },
    }
}

/// Writes `color` at pixel `(x, y)` of the canvas at `image_key` with one
/// atomic single-byte store command. A coordinate outside the canvas is
/// rejected before anything is sent.
pub fn set_pixel(con: &mut Connection, image_key: &String, x: u16, y: u16, color: u8) -> (r: Result<(), CanvasError>)
    ensures
        !in_bounds(x as int, y as int) <==> r == Err::<(), CanvasError>(CanvasError::InvalidCoordinate),
        !in_bounds(x as int, y as int) ==> *final(con) == *old(con),
        r matches Err(e) ==> e == CanvasError::InvalidCoordinate || e == CanvasError::StoreUnavailable,
{
    let w = match plan_pixel_write(x, y, color) {
        Ok(w) => w,
        Err(e) => return Err(e),
    };
    match bitfield_set_u8(con, image_key, bit_offset(&w), w.value) {
        Ok(()) => Ok(()),
        Err(_) => Err(CanvasError::StoreUnavailable),
    }
}

// A model of the blob at one key, as the store's GET, SETNX and BITFIELD SET
// change it when each runs alone. The laws below are proved of this model,
// with the byte writes and the blank blob that `plan_pixel_write` and
// `blank_image` compute; what the store itself does is not checked here.

/// The key after a set-if-absent of `blob`.
pub open spec fn set_if_absent_spec(stored: Option<Seq<u8>>, blob: Seq<u8>) -> Option<Seq<u8>> {
    match stored {
        Some(b) => Some(b),
        None => Some(blob),
    }
}

/// A bit-field byte write: in place where the blob reaches the offset, else the
/// blob is first extended with zero bytes (an absent key counts as empty).
pub open spec fn bitfield_write_spec(stored: Option<Seq<u8>>, w: ByteWrite) -> Seq<u8> {
    let b = match stored {
        Some(b) => b,
        None => Seq::<u8>::empty(),
    };
    if (w.offset as int) < b.len() {
        apply_write(b, w)
    } else {
        b + Seq::new((w.offset - b.len()) as nat, |i: int| 0u8) + seq![w.value]
    }
}

/// The key after a fetch-or-init run alone.
pub open spec fn stored_after_fetch(stored: Option<Seq<u8>>) -> Option<Seq<u8>> {
    set_if_absent_spec(stored, blank_spec())
}

/// What a fetch-or-init run alone returns.
pub open spec fn fetch_result(stored: Option<Seq<u8>>) -> Seq<u8> {
    stored_after_fetch(stored).unwrap()
}

/// The key after a set-pixel run alone.
pub open spec fn stored_after_set_pixel(stored: Option<Seq<u8>>, x: u16, y: u16, color: u8) -> Option<Seq<u8>> {
    match pixel_write_spec(x, y, color) {
        Ok(w) => Some(bitfield_write_spec(stored, w)),
        Err(_) => stored,
    }
}

/// In the store model: the byte write of a pixel inside the canvas, followed
/// by a fetch-or-init, shows `color` at the pixel's offset and every other byte
/// as it was.
pub proof fn lemma_set_pixel_then_fetch(image: Seq<u8>, x: u16, y: u16, color: u8)
    requires
        image.len() == IMAGE_LEN,
        in_bounds(x as int, y as int),
    ensures
        ({
            let after = fetch_result(stored_after_set_pixel(Some(image), x, y, color));
            &&& after.len() == IMAGE_LEN
            &&& after[offset_of(x as int, y as int)] == color
            &&& forall|i: int| 0 <= i < IMAGE_LEN && i != offset_of(x as int, y as int) ==> after[i] == image[i]
        }),
{
    crate::canvas::lemma_offset_in_image(x as int, y as int);
}

/// In the store model: a pixel outside the canvas is rejected with
/// `InvalidCoordinate` and the stored blob stays as it was.
pub proof fn lemma_out_of_bounds_rejected(stored: Option<Seq<u8>>, x: u16, y: u16, color: u8)
    requires
        !in_bounds(x as int, y as int),
    ensures
        pixel_write_spec(x, y, color) == Err::<ByteWrite, CanvasError>(CanvasError::InvalidCoordinate),
        stored_after_set_pixel(stored, x, y, color) == stored,
{
}

/// In the store model: a fetch-or-init of an absent canvas returns a blank
/// image of full length.
pub proof fn lemma_fetch_fresh()
    ensures
        fetch_result(None).len() == IMAGE_LEN,
        forall|i: int| 0 <= i < IMAGE_LEN ==> fetch_result(None)[i] == 0u8,
{
}

/// In the store model: two fetch-or-inits in a row return the same bytes.
pub proof fn lemma_fetch_idempotent(stored: Option<Seq<u8>>)
    ensures
        fetch_result(stored_after_fetch(stored)) == fetch_result(stored),
        stored_after_fetch(stored_after_fetch(stored)) == stored_after_fetch(stored),
{
}

/// In the store model: two first fetches that both found the canvas absent and
/// both ran their set-if-absent leave one blank image of full length, and both
/// read it.
pub proof fn lemma_racing_first_fetches()
    ensures
        set_if_absent_spec(set_if_absent_spec(None, blank_spec()), blank_spec()) == Some(blank_spec()),
        blank_spec().len() == IMAGE_LEN,
        forall|i: int| 0 <= i < IMAGE_LEN ==> blank_spec()[i] == 0u8,
{
}

} // verus!
