//! The bounded byte queue behind a console's buffers.
//!
//! Both buffers of a console are a `CircularBuffer` of `VTTY_BUFFER_SIZE`
//! bytes. The type is opaque to the verifier: what it holds is named by
//! [`ring_bytes`], oldest byte first, and each method the console calls is
//! described over that name.

use super::VTTY_BUFFER_SIZE;
use circular_buffer::CircularBuffer;
use vstd::prelude::*;

verus! {

/// `circular_buffer::CircularBuffer`: a queue of at most `N` items in a
/// fixed array. The verifier sees nothing inside it.
#[verifier::external_type_specification]
#[verifier::external_body]
#[verifier::reject_recursive_types(T)]
pub struct ExCircularBuffer<const N: usize, T>(CircularBuffer<N, T>);

/// The bytes a buffer holds, front (oldest) first.
pub uninterp spec fn ring_bytes(buf: CircularBuffer<VTTY_BUFFER_SIZE, u8>) -> Seq<u8>;

/// `CircularBuffer::new`: a buffer that holds nothing.
#[verifier::external_body]
pub(crate) fn ring_new() -> (buf: CircularBuffer<VTTY_BUFFER_SIZE, u8>)
    ensures
        ring_bytes(buf) == Seq::<u8>::empty(),
{
    CircularBuffer::new()
}

/// `CircularBuffer::is_empty`: whether no byte is held.
#[verifier::external_body]
pub(crate) fn ring_is_empty(buf: &CircularBuffer<VTTY_BUFFER_SIZE, u8>) -> (b: bool)
    ensures
        b == (ring_bytes(*buf).len() == 0),
{
    buf.is_empty()
}

/// `CircularBuffer::try_push_back`: below capacity the byte is appended at
/// the back; at capacity nothing changes and the byte comes back as the
/// error.
#[verifier::external_body]
pub(crate) fn ring_try_push_back(buf: &mut CircularBuffer<VTTY_BUFFER_SIZE, u8>, c: u8) -> (r: Result<(), u8>)
    ensures
        r is Ok <==> ring_bytes(*old(buf)).len() < VTTY_BUFFER_SIZE,
        r is Ok ==> ring_bytes(*final(buf)) == ring_bytes(*old(buf)).push(c),
        r is Err ==> ring_bytes(*final(buf)) == ring_bytes(*old(buf)) && r->Err_0 == c,
{
    buf.try_push_back(c)
}

/// `CircularBuffer::push_back`: below capacity the byte is appended at the
/// back and nothing is returned; at capacity the front byte leaves, is
/// returned, and the new byte is appended at the back.
#[verifier::external_body]
pub(crate) fn ring_push_back(buf: &mut CircularBuffer<VTTY_BUFFER_SIZE, u8>, c: u8) -> (r: Option<u8>)
    ensures
        ring_bytes(*old(buf)).len() < VTTY_BUFFER_SIZE ==> r is None && ring_bytes(*final(buf))
            == ring_bytes(*old(buf)).push(c),
        ring_bytes(*old(buf)).len() >= VTTY_BUFFER_SIZE ==> r == Some(ring_bytes(*old(buf))[0])
            && ring_bytes(*final(buf)) == ring_bytes(*old(buf)).drop_first().push(c),
{
    buf.push_back(c)
}

/// `CircularBuffer::pop_front`: the front byte leaves and is returned; an
/// empty buffer stays empty and gives nothing.
#[verifier::external_body]
pub(crate) fn ring_pop_front(buf: &mut CircularBuffer<VTTY_BUFFER_SIZE, u8>) -> (r: Option<u8>)
    ensures
        ring_bytes(*old(buf)).len() == 0 ==> r is None && ring_bytes(*final(buf)) == ring_bytes(
            *old(buf),
        ),
        ring_bytes(*old(buf)).len() > 0 ==> r == Some(ring_bytes(*old(buf))[0]) && ring_bytes(
            *final(buf),
        ) == ring_bytes(*old(buf)).drop_first(),
{
    buf.pop_front()
}

/// `CircularBuffer::make_contiguous`: the bytes held, front first, as one
/// run; the buffer holds the same bytes in the same order afterwards.
#[verifier::external_body]
pub(crate) fn ring_make_contiguous(buf: &mut CircularBuffer<VTTY_BUFFER_SIZE, u8>) -> (bytes: Vec<u8>)
    ensures
        bytes@ == ring_bytes(*old(buf)),
        ring_bytes(*final(buf)) == ring_bytes(*old(buf)),
{
    buf.make_contiguous().to_vec()
}

} // verus!
