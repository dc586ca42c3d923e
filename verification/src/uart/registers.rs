//! The registers of a UART channel and their fields.

use vstd::prelude::*;

verus! {

/// 8.7 Interrupt Enable Register (idx=1, DLAB=0, RW)
pub struct InterruptEnable;

impl InterruptEnable {
    /// Enable Received Data Available Interrupt
    pub const ERDAI: u8 = 0x01;
    /// Enable Transmitter Holding Register Empty Interrupt
    pub const ETHREI: u8 = 0x02;
    /// Enable Receiver Line Status Interrupt
    pub const ELSI: u8 = 0x04;
    /// Enable Modem Status Interrupt
    pub const EMSI: u8 = 0x08;
}

/// 8.6 Interrupt Identification Register (idx=2, DLAB=0, RO)
pub struct InterruptIdentification;

impl InterruptIdentification {
    /// "0" if Interrupt is Pending
    pub const IP: u8 = 0x01;
    /// Interrupt ID Bits
    pub const IIB: u8 = 0x0e;
    /// Fifo's Enabled
    pub const FE: u8 = 0xc0;
    /// Interrupt ID of the highest priority level: receiver line status
    pub const RECEIVER_LINE_STATUS: u8 = 0x06;
    /// Interrupt ID of the second priority level: received data available
    pub const RECEIVED_DATA_AVAILABLE: u8 = 0x04;
    /// Interrupt ID of the second priority level: fifo timeout
    pub const FIFO_TIMEOUT: u8 = 0x0c;
    /// Interrupt ID of the third priority level
    pub const TRANSMITTER_HOLDING_REGISTER_EMPTY: u8 = 0x02;
    /// Interrupt ID of the fourth priority level
    pub const MODEM_STATUS: u8 = 0x00;
}

/// 8.5 Fifo Control Register (idx=2, DLAB=0, WO)
pub struct FifoControl;

impl FifoControl {
    /// Fifo Enable
    pub const FE: u8 = 0x01;
    /// Receiver Fifo Reset
    pub const RFR: u8 = 0x02;
    /// Transmitter Fifo Reset
    pub const XFR: u8 = 0x04;
    /// Dma Mode Select
    pub const DMS: u8 = 0x08;
    /// Receiver Trigger (1/4/8/14)
    pub const RT: u8 = 0xc0;
}

/// 8.1 Line Control Register (idx=3, RW)
pub struct LineControl;

impl LineControl {
    /// Word Length Select, 5 to 8 bits.
    pub const WLS: u8 = 0x03;
    /// Number of Stop Bits, 1 or 1.5 for 5-bit words and 2 for 6/7/8-bit words
    pub const STB: u8 = 0x04;
    /// Parity Enable
    pub const PEN: u8 = 0x08;
    /// Even Parity Select
    pub const EPS: u8 = 0x10;
    /// Stick Parity
    pub const SP: u8 = 0x20;
    /// Set Break
    pub const SB: u8 = 0x40;
    /// Divisor Latch Access Bit
    pub const DLAB: u8 = 0x80;
}

/// 8.8 Modem Control Register (idx=4, RW)
pub struct ModemControl;

impl ModemControl {
    /// Data Terminal Ready
    pub const DTR: u8 = 0x01;
    /// Request to Send
    pub const RTS: u8 = 0x02;
    /// Out 1
    pub const OUT1: u8 = 0x04;
    /// Out 2
    pub const OUT2: u8 = 0x08;
    /// Loopback
    pub const LOOP: u8 = 0x10;
}

/// 8.4 Line Status Register (idx=5, RO)
pub struct LineStatus;

impl LineStatus {
    /// Data Ready (for reading)
    pub const DR: u8 = 0x01;
    /// Overrun Error (too much data received) (latching high)
    pub const OE: u8 = 0x02;
    /// Parity Error in the current character (latching high)
    pub const PE: u8 = 0x04;
    /// The current character has a frame error (latching high)
    pub const FE: u8 = 0x08;
    /// Break Interrupt (latching high)
    pub const BI: u8 = 0x10;
    /// Transmitter Holding Register empty
    pub const THRE: u8 = 0x20;
    /// Transmitter Empty
    pub const TEMT: u8 = 0x40;
    /// Error in Receiver Fifo (latching high)
    pub const ERF: u8 = 0x80;
    /// The errors that raise the receiver line status interrupt.
    pub const ERRORS: u8 = 0x1e;
}

/// 8.9 Modem Status Register (idx=6, RO)
pub struct ModemStatus;

impl ModemStatus {
    /// Delta Clear to Send (latching high)
    pub const DCTS: u8 = 0x01;
    /// Delta Data Set Ready (latching high)
    pub const DDSR: u8 = 0x02;
    /// Trailing Edge of Ring Indicator (latching high)
    pub const TERI: u8 = 0x04;
    /// Delta Data Carrier Detect (latching high)
    pub const DDCD: u8 = 0x08;
    /// Clear to Send
    pub const CTS: u8 = 0x10;
    /// Data Set Ready
    pub const DSR: u8 = 0x20;
    /// Ring Indicator
    pub const RI: u8 = 0x40;
    /// Data Carrier Detect
    pub const DCD: u8 = 0x80;
    /// The changes that raise the modem status interrupt.
    pub const DELTAS: u8 = 0x0f;
}

/// 8.10 Alternate Function Register (idx=2, DLAB=1, RW)
pub struct AlternateFunction;

impl AlternateFunction {
    /// Write to both uart at the same time.
    pub const CW: u8 = 0x01;
    /// Which signal goes to the MF pin.
    pub const MF: u8 = 0x06;
}

/// Whether a bit of `mask` is set in `reg`.
pub open spec fn any_set(reg: u8, mask: u8) -> bool {
    reg & mask != 0
}

/// `reg` with the bits of `mask` set where `on` holds, cleared where not.
pub open spec fn with(reg: u8, mask: u8, on: bool) -> u8 {
    if on {
        reg | mask
    } else {
        reg & !mask
    }
}

/// `reg` with the bits of `mask` taken from `value`.
pub open spec fn written(reg: u8, mask: u8, value: u8) -> u8 {
    (reg & !mask) | (value & mask)
}

/// Whether a bit of `mask` is set in `reg`.
pub(crate) fn bit(reg: u8, mask: u8) -> (b: bool)
    ensures
        b == any_set(reg, mask),
{
    reg & mask != 0
}

/// `reg` with the bits of `mask` set where `on` holds, cleared where not.
pub(crate) fn put(reg: u8, mask: u8, on: bool) -> (r: u8)
    ensures
        r == with(reg, mask, on),
{
    if on {
        reg | mask
    } else {
        reg & !mask
    }
}

} // verus!
