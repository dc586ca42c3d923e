//! The sixteen-slot queues of a UART channel.
//!
//! The transmitter queue holds bytes, the receiver queue holds packets. Both
//! are a `CircularBuffer` of sixteen slots, opaque to the verifier: what a
//! queue holds is named by [`tx_bytes`] and [`rx_packets`], oldest first,
//! and each method the UART calls is described over these names. The type
//! itself is made known to the verifier beside the buffers of a console.

use super::memory::Packet;
use circular_buffer::CircularBuffer;
use vstd::prelude::*;

verus! {

/// Number of slots in a queue of a UART channel.
pub const FIFO_SIZE: usize = 16;

/// The bytes that a transmitter queue holds, front (oldest) first.
pub uninterp spec fn tx_bytes(buf: CircularBuffer<FIFO_SIZE, u8>) -> Seq<u8>;

/// The packets that a receiver queue holds, front (oldest) first.
pub uninterp spec fn rx_packets(buf: CircularBuffer<FIFO_SIZE, Packet>) -> Seq<Packet>;

/// `CircularBuffer::new`: a queue that holds nothing.
#[verifier::external_body]
pub(crate) fn tx_new() -> (buf: CircularBuffer<FIFO_SIZE, u8>)
    ensures
        tx_bytes(buf) == Seq::<u8>::empty(),
{
    CircularBuffer::new()
}

/// `CircularBuffer::len`: the number of bytes held, which never exceeds the
/// capacity.
#[verifier::external_body]
pub(crate) fn tx_len(buf: &CircularBuffer<FIFO_SIZE, u8>) -> (n: usize)
    ensures
        n == tx_bytes(*buf).len(),
        n <= FIFO_SIZE,
{
    buf.len()
}

/// `CircularBuffer::capacity`: the number of slots.
#[verifier::external_body]
pub(crate) fn tx_capacity(buf: &CircularBuffer<FIFO_SIZE, u8>) -> (n: usize)
    ensures
        n == FIFO_SIZE,
{
    buf.capacity()
}

/// `CircularBuffer::is_empty`: whether no byte is held.
#[verifier::external_body]
pub(crate) fn tx_is_empty(buf: &CircularBuffer<FIFO_SIZE, u8>) -> (b: bool)
    ensures
        b == (tx_bytes(*buf).len() == 0),
{
    buf.is_empty()
}

/// `CircularBuffer::push_back`: below capacity the byte is appended at the
/// back and nothing is returned; at capacity the front byte leaves, is
/// returned, and the new byte is appended at the back.
#[verifier::external_body]
pub(crate) fn tx_push_back(buf: &mut CircularBuffer<FIFO_SIZE, u8>, c: u8) -> (r: Option<u8>)
    ensures
        tx_bytes(*old(buf)).len() < FIFO_SIZE ==> r is None && tx_bytes(*final(buf)) == tx_bytes(
            *old(buf),
        ).push(c),
        tx_bytes(*old(buf)).len() >= FIFO_SIZE ==> r == Some(tx_bytes(*old(buf))[0]) && tx_bytes(
            *final(buf),
        ) == tx_bytes(*old(buf)).drop_first().push(c),
{
    buf.push_back(c)
}

/// `CircularBuffer::pop_front`: the front byte leaves and is returned; an
/// empty queue stays empty and gives nothing.
#[verifier::external_body]
pub(crate) fn tx_pop_front(buf: &mut CircularBuffer<FIFO_SIZE, u8>) -> (r: Option<u8>)
    ensures
        tx_bytes(*old(buf)).len() == 0 ==> r is None && tx_bytes(*final(buf)) == tx_bytes(
            *old(buf),
        ),
        tx_bytes(*old(buf)).len() > 0 ==> r == Some(tx_bytes(*old(buf))[0]) && tx_bytes(
            *final(buf),
        ) == tx_bytes(*old(buf)).drop_first(),
{
    buf.pop_front()
}

/// `CircularBuffer::new`: a queue that holds nothing.
#[verifier::external_body]
pub(crate) fn rx_new() -> (buf: CircularBuffer<FIFO_SIZE, Packet>)
    ensures
        rx_packets(buf) == Seq::<Packet>::empty(),
{
    CircularBuffer::new()
}

/// `CircularBuffer::len`: the number of packets held, which never exceeds
/// the capacity.
#[verifier::external_body]
pub(crate) fn rx_len(buf: &CircularBuffer<FIFO_SIZE, Packet>) -> (n: usize)
    ensures
        n == rx_packets(*buf).len(),
        n <= FIFO_SIZE,
{
    buf.len()
}

/// `CircularBuffer::capacity`: the number of slots.
#[verifier::external_body]
pub(crate) fn rx_capacity(buf: &CircularBuffer<FIFO_SIZE, Packet>) -> (n: usize)
    ensures
        n == FIFO_SIZE,
{
    buf.capacity()
}

/// `CircularBuffer::is_empty`: whether no packet is held.
#[verifier::external_body]
pub(crate) fn rx_is_empty(buf: &CircularBuffer<FIFO_SIZE, Packet>) -> (b: bool)
    ensures
        b == (rx_packets(*buf).len() == 0),
{
    buf.is_empty()
}

/// `CircularBuffer::clear`: the queue holds nothing afterwards.
#[verifier::external_body]
pub(crate) fn rx_clear(buf: &mut CircularBuffer<FIFO_SIZE, Packet>)
    ensures
        rx_packets(*final(buf)) == Seq::<Packet>::empty(),
{
    buf.clear()
}

/// `CircularBuffer::push_back`: below capacity the packet is appended at the
/// back and nothing is returned; at capacity the front packet leaves, is
/// returned, and the new packet is appended at the back.
#[verifier::external_body]
pub(crate) fn rx_push_back(buf: &mut CircularBuffer<FIFO_SIZE, Packet>, packet: Packet) -> (r: Option<Packet>)
    ensures
        rx_packets(*old(buf)).len() < FIFO_SIZE ==> r is None && rx_packets(*final(buf))
            == rx_packets(*old(buf)).push(packet),
        rx_packets(*old(buf)).len() >= FIFO_SIZE ==> r == Some(rx_packets(*old(buf))[0])
            && rx_packets(*final(buf)) == rx_packets(*old(buf)).drop_first().push(packet),
{
    buf.push_back(packet)
}

/// `CircularBuffer::pop_front`: the front packet leaves and is returned; an
/// empty queue stays empty and gives nothing.
#[verifier::external_body]
pub(crate) fn rx_pop_front(buf: &mut CircularBuffer<FIFO_SIZE, Packet>) -> (r: Option<Packet>)
    ensures
        rx_packets(*old(buf)).len() == 0 ==> r is None && rx_packets(*final(buf)) == rx_packets(
            *old(buf),
        ),
        rx_packets(*old(buf)).len() > 0 ==> r == Some(rx_packets(*old(buf))[0]) && rx_packets(
            *final(buf),
        ) == rx_packets(*old(buf)).drop_first(),
{
    buf.pop_front()
}

/// `CircularBuffer::get`: the packet at the position `index`, counted from
/// the front, or nothing where the queue holds no more than `index`
/// packets.
#[verifier::external_body]
pub(crate) fn rx_get(buf: &CircularBuffer<FIFO_SIZE, Packet>, index: usize) -> (r: Option<&Packet>)
    ensures
        index < rx_packets(*buf).len() ==> r == Some(&rx_packets(*buf)[index as int]),
        index >= rx_packets(*buf).len() ==> r is None,
{
    buf.get(index)
}

} // verus!
