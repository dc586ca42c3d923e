//! The memories of a UART channel.

use super::fifo::rx_capacity;
use super::fifo::rx_clear;
use super::fifo::rx_get;
use super::fifo::rx_is_empty;
use super::fifo::rx_len;
use super::fifo::rx_new;
use super::fifo::rx_packets;
use super::fifo::rx_pop_front;
use super::fifo::rx_push_back;
use super::fifo::tx_bytes;
use super::fifo::tx_capacity;
use super::fifo::tx_is_empty;
use super::fifo::tx_len;
use super::fifo::tx_new;
use super::fifo::tx_pop_front;
use super::fifo::tx_push_back;
use super::fifo::FIFO_SIZE;
use circular_buffer::CircularBuffer;
use vstd::prelude::*;

verus! {

/// Packet of data
#[derive(Debug, Copy, Clone, PartialEq, Eq, Structural)]
pub enum Packet {
    /// Packet with data
    Data(u8),
    /// Packet with data and a parity error
    ParityError(u8),
    /// The packet did not have a valid stop bit
    FrameError,
    /// The line was held low for longer than a packet
    BreakInterrupt,
}

impl Packet {
    /// The byte that the packet carries; 0 where it carries none.
    pub open spec fn spec_value(&self) -> u8 {
        match *self {
            Packet::Data(x) => x,
            Packet::ParityError(x) => x,
            _ => 0,
        }
    }

    /// Whether the packet is anything but sound data.
    pub open spec fn spec_is_error(&self) -> bool {
        !(*self is Data)
    }

    #[verifier::when_used_as_spec(spec_value)]
    pub fn value(&self) -> (v: u8)
        ensures
            v == self.spec_value(),
    {
        match self {
            Self::Data(x) => *x,
            Self::ParityError(x) => *x,
            _ => 0,
        }
    }

    #[verifier::when_used_as_spec(spec_is_error)]
    pub fn is_error(&self) -> (e: bool)
        ensures
            e == self.spec_is_error(),
    {
        match self {
            Self::Data(_) => false,
            _ => true,
        }
    }
}

/// Transmitter memory
#[derive(Debug)]
pub struct TransmitterMemory {
    pub fifo: CircularBuffer<FIFO_SIZE, u8>,
    /// The byte that is on the line.
    pub transmit_byte: Option<u8>,
}

/// A transmitter memory as a mathematical value.
pub struct TransmitterView {
    pub fifo: Seq<u8>,
    pub transmit_byte: Option<u8>,
}

impl View for TransmitterMemory {
    type V = TransmitterView;

    open spec fn view(&self) -> TransmitterView {
        TransmitterView { fifo: tx_bytes(self.fifo), transmit_byte: self.transmit_byte }
    }
}

impl TransmitterMemory {
    pub fn new() -> (m: Self)
        ensures
            m@ == (TransmitterView { fifo: Seq::empty(), transmit_byte: None }),
    {
        Self::default()
    }

    pub fn is_empty(&self) -> (b: bool)
        ensures
            b == (self@.fifo.len() == 0),
    {
        tx_is_empty(&self.fifo)
    }

    pub fn has_data(&self) -> (b: bool)
        ensures
            b == (self@.fifo.len() > 0),
    {
        !tx_is_empty(&self.fifo)
    }

    pub fn has_space(&self) -> (b: bool)
        ensures
            b == (self@.fifo.len() < FIFO_SIZE),
    {
        tx_len(&self.fifo) < tx_capacity(&self.fifo)
    }

    /// Appends `value` where there is space, and says whether there was.
    pub fn push(&mut self, value: u8) -> (pushed: bool)
        ensures
            pushed == (old(self)@.fifo.len() < FIFO_SIZE),
            final(self)@ == (TransmitterView {
                fifo: if pushed {
                    old(self)@.fifo.push(value)
                } else {
                    old(self)@.fifo
                },
                ..old(self)@
            }),
    {
        if self.has_space() {
            tx_push_back(&mut self.fifo, value);
            true
        } else {
            false
        }
    }

    /// Takes the oldest byte out, if there is one.
    pub fn pop(&mut self) -> (value: Option<u8>)
        ensures
            old(self)@.fifo.len() == 0 ==> value is None && final(self)@ == old(self)@,
            old(self)@.fifo.len() > 0 ==> value == Some(old(self)@.fifo[0]) && final(self)@ == (
            TransmitterView { fifo: old(self)@.fifo.drop_first(), ..old(self)@ }),
    {
        tx_pop_front(&mut self.fifo)
    }
}

impl Default for TransmitterMemory {
    fn default() -> (m: Self)
        ensures
            m@ == (TransmitterView { fifo: Seq::empty(), transmit_byte: None }),
    {
        Self { fifo: tx_new(), transmit_byte: None }
    }
}

/// Receiver memory
#[derive(Debug)]
pub struct ReceiverMemory {
    pub fifo: CircularBuffer<FIFO_SIZE, Packet>,
}

impl View for ReceiverMemory {
    type V = Seq<Packet>;

    open spec fn view(&self) -> Seq<Packet> {
        rx_packets(self.fifo)
    }
}

/// Whether one of `packets` is an error.
pub open spec fn holds_error(packets: Seq<Packet>) -> bool {
    exists|i: int| 0 <= i < packets.len() && (#[trigger] packets[i]).spec_is_error()
}

impl ReceiverMemory {
    pub fn new() -> (m: Self)
        ensures
            m@ == Seq::<Packet>::empty(),
    {
        Self::default()
    }

    pub fn is_empty(&self) -> (b: bool)
        ensures
            b == (self@.len() == 0),
    {
        rx_is_empty(&self.fifo)
    }

    pub fn has_data(&self) -> (b: bool)
        ensures
            b == (self@.len() > 0),
    {
        !rx_is_empty(&self.fifo)
    }

    pub fn has_space(&mut self) -> (b: bool)
        ensures
            b == (old(self)@.len() < FIFO_SIZE),
            final(self)@ == old(self)@,
    {
        rx_len(&self.fifo) < rx_capacity(&self.fifo)
    }

    pub fn reset(&mut self)
        ensures
            final(self)@ == Seq::<Packet>::empty(),
    {
        rx_clear(&mut self.fifo);
    }

    /// Appends `packet` where there is space, and says whether there was.
    pub fn push(&mut self, packet: Packet) -> (pushed: bool)
        ensures
            pushed == (old(self)@.len() < FIFO_SIZE),
            final(self)@ == (if pushed {
                old(self)@.push(packet)
            } else {
                old(self)@
            }),
    {
        if self.has_space() {
            rx_push_back(&mut self.fifo, packet);
            true
        } else {
            false
        }
    }

    /// Takes the oldest packet out, if there is one.
    pub fn pop(&mut self) -> (packet: Option<Packet>)
        ensures
            old(self)@.len() == 0 ==> packet is None && final(self)@ == old(self)@,
            old(self)@.len() > 0 ==> packet == Some(old(self)@[0]) && final(self)@ == old(
                self,
            )@.drop_first(),
    {
        rx_pop_front(&mut self.fifo)
    }

    /// The oldest packet, if there is one.
    pub fn peek(&mut self) -> (packet: Option<&Packet>)
        ensures
            old(self)@.len() == 0 ==> packet is None,
            old(self)@.len() > 0 ==> packet == Some(&old(self)@[0]),
            final(self)@ == old(self)@,
    {
        rx_get(&self.fifo, 0)
    }

    pub fn has_error_in_fifo(&self) -> (b: bool)
        ensures
            b == holds_error(self@),
    {
        let len = rx_len(&self.fifo);
        let mut i: usize = 0;
        while i < len
            invariant
                i <= len == self@.len(),
                forall|k: int| 0 <= k < i ==> !(#[trigger] self@[k]).spec_is_error(),
            decreases len - i,
        {
            if let Some(packet) = rx_get(&self.fifo, i) {
                if packet.is_error() {
                    return true;
                }
            }
            i += 1;
        }
        false
    }
}

impl Default for ReceiverMemory {
    fn default() -> (m: Self)
        ensures
            m@ == Seq::<Packet>::empty(),
    {
        Self { fifo: rx_new() }
    }
}

} // verus!
