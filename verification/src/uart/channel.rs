//! One channel of the dual UART.
//!
//! A channel moves packets between its registers, its queues and its
//! console as time passes, and raises its interrupt for the cause of
//! highest priority. Time is a count of nanoseconds that the host reads
//! from a clock that never runs backwards.

use super::fifo::rx_len;
use super::fifo::FIFO_SIZE;
use super::memory::holds_error;
use super::memory::Packet;
use super::memory::ReceiverMemory;
use super::memory::TransmitterMemory;
use super::memory::TransmitterView;
use super::ns16552::Ns16552;
use super::registers::any_set;
use super::registers::bit;
use super::registers::put;
use super::registers::with;
use super::registers::written;
use super::registers::FifoControl;
use super::registers::InterruptEnable;
use super::registers::InterruptIdentification;
use super::registers::LineControl;
use super::registers::LineStatus;
use super::registers::ModemControl;
use super::registers::ModemStatus;
use crate::c::dev_vtty::action::plan_append;
use crate::c::dev_vtty::action::plan_of;
use crate::c::dev_vtty::console::replay_put;
use crate::c::dev_vtty::vtty_flush;
use crate::c::dev_vtty::vtty_get_char;
use crate::c::dev_vtty::vtty_is_char_avail;
use crate::c::dev_vtty::vtty_put_char;
use crate::c::dev_vtty::Vtty;
use crate::c::dev_vtty::VttyAction;
use crate::c::dev_vtty::VttyActionView;
use crate::c::dev_vtty::VttyView;
use crate::utils::lemma_reduced_parts;
use crate::utils::Fraction;
use vstd::prelude::*;

verus! {

/// Modem signals
#[derive(Debug, Copy, Clone, PartialEq, Eq, Structural)]
pub struct Modem {
    /// Clear to Send
    pub cts: bool,
    /// Data Set Ready
    pub dsr: bool,
    /// Ring Indicator
    pub ri: bool,
    /// Data Carrier Detect
    pub dcd: bool,
}

impl Default for Modem {
    fn default() -> (m: Self)
        ensures
            m == (Modem { cts: false, dsr: false, ri: false, dcd: false }),
    {
        Modem { cts: false, dsr: false, ri: false, dcd: false }
    }
}

/// The number of data bits of a packet, as the line control register `lcr`
/// sets it: 5 to 8.
pub open spec fn data_bits(lcr: u8) -> nat {
    5 + (lcr & LineControl::WLS) as nat
}

/// The number of parity bits of a packet: 1 where parity is enabled.
pub open spec fn parity_bits(lcr: u8) -> nat {
    if any_set(lcr, LineControl::PEN) {
        1
    } else {
        0
    }
}

/// The divisor of the baud rate generator, low byte `dll`, high byte `dlm`.
pub open spec fn divisor(dll: u8, dlm: u8) -> nat {
    dll as nat + 256 * dlm as nat
}

/// The packets that pass the line in a second: the sixteenth of the
/// oscillator frequency, divided by the divisor and by the bits of a packet
/// with its start bit and its stop bits. With more stop bits a packet of
/// 5 data bits takes half a stop bit more, any other a whole one.
pub open spec fn packets_per_second(lcr: u8, dll: u8, dlm: u8) -> Fraction {
    let bits = 1 + data_bits(lcr) + parity_bits(lcr);
    let div = divisor(dll, dlm);
    if any_set(lcr, LineControl::STB) {
        if data_bits(lcr) == 5 {
            Fraction(
                (Ns16552::CRYSTAL_HZ * 2) as u32,
                (16 * (2 * div * (bits + 1) + 1)) as u32,
            ).reduced()
        } else {
            Fraction(Ns16552::CRYSTAL_HZ, (16 * (div * (bits + 2))) as u32).reduced()
        }
    } else {
        Fraction(Ns16552::CRYSTAL_HZ, (16 * (div * (bits + 1))) as u32).reduced()
    }
}

/// How long one packet is on the line, in nanoseconds, rounded down; 0
/// where the divisor is 0.
pub open spec fn packet_nanos(lcr: u8, dll: u8, dlm: u8) -> nat {
    packets_per_second(lcr, dll, dlm).invert().nanos()
}

/// UART of the chip.
#[derive(Debug)]
pub struct Uart {
    /// Console/aux terminal: the identity of the console that the channel
    /// is wired to, if it is wired to one.
    pub vtty: Option<u64>,
    /// Fake modem pins
    pub modem: Modem,
    /// How long it takes to send/receive a packet with the current baud
    /// rate, in nanoseconds
    pub packet_duration: u64,
    /// When the last packet transmission started
    pub transmit_instant: u64,
    /// When the last packet was received
    pub receive_instant: u64,
    /// When the last packet was read
    pub read_instant: u64,
    /// Transmitter memory
    pub transmitter: TransmitterMemory,
    /// Receiver memory
    pub receiver: ReceiverMemory,
    // registers
    pub ier: u8,
    pub iir: u8,
    pub fcr: u8,
    pub lcr: u8,
    pub mcr: u8,
    pub lsr: u8,
    pub msr: u8,
    pub scr: u8,
    pub dll: u8,
    pub dlm: u8,
    pub afr: u8,
}

/// A channel as a mathematical value.
pub struct UartView {
    pub vtty: Option<u64>,
    pub modem: Modem,
    pub packet_duration: u64,
    pub transmit_instant: u64,
    pub receive_instant: u64,
    pub read_instant: u64,
    pub transmitter: TransmitterView,
    pub receiver: Seq<Packet>,
    pub ier: u8,
    pub iir: u8,
    pub fcr: u8,
    pub lcr: u8,
    pub mcr: u8,
    pub lsr: u8,
    pub msr: u8,
    pub scr: u8,
    pub dll: u8,
    pub dlm: u8,
    pub afr: u8,
}

impl View for Uart {
    type V = UartView;

    open spec fn view(&self) -> UartView {
        UartView {
            vtty: self.vtty,
            modem: self.modem,
            packet_duration: self.packet_duration,
            transmit_instant: self.transmit_instant,
            receive_instant: self.receive_instant,
            read_instant: self.read_instant,
            transmitter: self.transmitter@,
            receiver: self.receiver@,
            ier: self.ier,
            iir: self.iir,
            fcr: self.fcr,
            lcr: self.lcr,
            mcr: self.mcr,
            lsr: self.lsr,
            msr: self.msr,
            scr: self.scr,
            dll: self.dll,
            dlm: self.dlm,
            afr: self.afr,
        }
    }
}

/// The time from `since` to `now`; 0 where `now` is not later.
pub open spec fn elapsed(now: u64, since: u64) -> nat {
    if now >= since {
        (now - since) as nat
    } else {
        0
    }
}

/// The time `span` before `now`; 0 where that is before the clock started.
pub open spec fn before(now: u64, span: u64) -> u64 {
    if now >= span {
        (now - span) as u64
    } else {
        0
    }
}

/// The time `span` after `at`; the last time of the clock where that is
/// beyond it.
pub open spec fn after(at: u64, span: u64) -> u64 {
    if at + span <= u64::MAX {
        (at + span) as u64
    } else {
        u64::MAX
    }
}

/// The number of packets in the receiver queue that raises the received
/// data interrupt, as the fifo control register `fcr` sets it.
pub open spec fn receiver_trigger(fcr: u8) -> nat {
    let level = (fcr & FifoControl::RT) >> 6;
    if level == 0 {
        1
    } else if level == 1 {
        4
    } else if level == 2 {
        8
    } else {
        14
    }
}

impl UartView {
    /// A channel after reset, wired to nothing, at 9600 baud with 8 data
    /// bits, created at the time `now`.
    pub open spec fn reset(now: u64) -> UartView {
        UartView {
            vtty: None,
            modem: Modem { cts: false, dsr: false, ri: false, dcd: false },
            packet_duration: packet_nanos(0x03, 24, 0) as u64,
            transmit_instant: now,
            receive_instant: now,
            read_instant: now,
            transmitter: TransmitterView { fifo: Seq::empty(), transmit_byte: None },
            receiver: Seq::empty(),
            ier: 0b0000_0000,
            iir: 0b0000_0001,
            fcr: 0b0000_0000,
            lcr: 0b0000_0011,
            mcr: 0b0000_0000,
            lsr: 0b0110_0000,
            msr: 0b0000_0000,
            scr: 0b0000_0000,
            dll: 24,
            dlm: 0,
            afr: 0b0000_0000,
        }
    }

    /// Whether the channel raises its interrupt.
    pub open spec fn has_interrupt(self) -> bool {
        !any_set(self.iir, InterruptIdentification::IP)
    }

    /// Whether the channel is in loopback.
    pub open spec fn loopback(self) -> bool {
        any_set(self.mcr, ModemControl::LOOP)
    }

    /// Whether the queues of the channel are enabled.
    pub open spec fn fifo_enabled(self) -> bool {
        any_set(self.fcr, FifoControl::FE)
    }

    /// Whether the divisor latch is selected.
    pub open spec fn dlab(self) -> bool {
        any_set(self.lcr, LineControl::DLAB)
    }

    /// The channel wired to the console `vtty`, which has a character
    /// waiting or not as `char_avail` says.
    pub open spec fn wired(self, vtty: Option<u64>, char_avail: bool) -> UartView {
        UartView {
            vtty,
            modem: match vtty {
                None => Modem { cts: false, dsr: false, dcd: false, ri: false },
                Some(_) => Modem { cts: true, dsr: char_avail, dcd: true, ri: false },
            },
            ..self
        }
    }

    /// The channel with its packet duration following its registers.
    pub open spec fn with_packet_duration(self) -> UartView {
        UartView { packet_duration: packet_nanos(self.lcr, self.dll, self.dlm) as u64, ..self }
    }

    /// The modem lines as the channel sees them: its own outputs in
    /// loopback, the pins otherwise.
    pub open spec fn lines(self) -> Modem {
        if self.loopback() {
            Modem {
                cts: any_set(self.mcr, ModemControl::RTS),
                dsr: any_set(self.mcr, ModemControl::DTR),
                dcd: any_set(self.mcr, ModemControl::OUT1),
                ri: any_set(self.mcr, ModemControl::OUT2),
            }
        } else {
            self.modem
        }
    }

    /// The modem status after the line `line` was seen in the state `on`:
    /// a change is taken over and latched in `delta` if `latch` holds.
    pub open spec fn line_seen(msr: u8, line: u8, delta: u8, on: bool, latch: bool) -> u8 {
        if any_set(msr, line) == on {
            msr
        } else if latch {
            with(with(msr, line, on), delta, true)
        } else {
            with(msr, line, on)
        }
    }

    /// The channel after the modem control logic ran: the modem status
    /// follows the lines, and each change is latched. The ring indicator
    /// latches when it turns on.
    #[verifier::opaque]
    pub open spec fn after_modem(self) -> UartView {
        let lines = self.lines();
        let cts = UartView::line_seen(
            self.msr,
            ModemStatus::CTS,
            ModemStatus::DCTS,
            lines.cts,
            true,
        );
        let dsr = UartView::line_seen(cts, ModemStatus::DSR, ModemStatus::DDSR, lines.dsr, true);
        let ri = UartView::line_seen(dsr, ModemStatus::RI, ModemStatus::TERI, lines.ri, lines.ri);
        let dcd = UartView::line_seen(ri, ModemStatus::DCD, ModemStatus::DDCD, lines.dcd, true);
        UartView { msr: dcd, ..self }
    }

    /// Whether received data is ready for the interrupt: in fifo mode the
    /// receiver queue has reached its trigger level, in 16450 mode the data
    /// ready bit is set.
    pub open spec fn data_ready(self) -> bool {
        if self.fifo_enabled() {
            self.receiver.len() >= receiver_trigger(self.fcr)
        } else {
            any_set(self.lsr, LineStatus::DR)
        }
    }

    /// Whether the receiver queue has waited too long: in fifo mode it
    /// holds data, and four packet durations have passed since the last
    /// packet was received and since the last was read.
    pub open spec fn fifo_timeout(self, now: u64) -> bool {
        &&& self.fifo_enabled()
        &&& self.receiver.len() > 0
        &&& elapsed(now, self.receive_instant) >= 4 * self.packet_duration
        &&& elapsed(now, self.read_instant) >= 4 * self.packet_duration
    }

    /// The interrupt ID bits of the cause of highest priority that is
    /// enabled and present at the time `now`, if there is one.
    pub open spec fn interrupt_cause(self, now: u64) -> Option<u8> {
        if any_set(self.ier, InterruptEnable::ELSI) && any_set(self.lsr, LineStatus::ERRORS) {
            Some(InterruptIdentification::RECEIVER_LINE_STATUS)
        } else if any_set(self.ier, InterruptEnable::ERDAI) && self.data_ready() {
            Some(InterruptIdentification::RECEIVED_DATA_AVAILABLE)
        } else if any_set(self.ier, InterruptEnable::ERDAI) && self.fifo_timeout(now) {
            Some(InterruptIdentification::FIFO_TIMEOUT)
        } else if any_set(self.ier, InterruptEnable::ETHREI) && any_set(
            self.lsr,
            LineStatus::THRE,
        ) {
            Some(InterruptIdentification::TRANSMITTER_HOLDING_REGISTER_EMPTY)
        } else if any_set(self.ier, InterruptEnable::EMSI) && any_set(
            self.msr,
            ModemStatus::DELTAS,
        ) {
            Some(InterruptIdentification::MODEM_STATUS)
        } else {
            None
        }
    }

    /// The channel after the interrupt control logic ran at the time `now`:
    /// the interrupt identification register shows whether the queues are
    /// enabled and names the cause of the interrupt, if there is one.
    #[verifier::opaque]
    pub open spec fn after_interrupt(self, now: u64) -> UartView {
        let shown = with(self.iir, InterruptIdentification::FE, self.fifo_enabled());
        UartView {
            iir: match self.interrupt_cause(now) {
                Some(cause) => written(
                    with(shown, InterruptIdentification::IP, false),
                    InterruptIdentification::IIB,
                    cause,
                ),
                None => written(
                    with(shown, InterruptIdentification::IP, true),
                    InterruptIdentification::IIB,
                    0,
                ),
            },
            ..self
        }
    }

    /// Whether a packet waits to be received: in loopback the byte on the
    /// line, otherwise a character of the console.
    pub open spec fn receive_available(self, console: VttyView) -> bool {
        if self.loopback() {
            self.transmitter.transmit_byte is Some
        } else {
            self.vtty is Some && console.buffer.len() > 0
        }
    }

    /// The byte that a receive takes: in loopback the byte on the line,
    /// otherwise the oldest character of the console.
    pub open spec fn incoming(self, console: VttyView) -> Option<u8> {
        if self.loopback() {
            self.transmitter.transmit_byte
        } else if self.vtty is Some && console.buffer.len() > 0 {
            Some(console.buffer[0])
        } else {
            None
        }
    }

    /// The channel and the console after a packet was received, if one
    /// waited. The byte leaves its source and enters the receiver queue. In
    /// 16450 mode a byte that was not read is overrun; in fifo mode a byte
    /// that finds the queue full is lost. Either sets the overrun error.
    #[verifier::opaque]
    pub open spec fn after_receive(self, console: VttyView) -> UartStep {
        let taken = UartView {
            transmitter: if self.loopback() {
                TransmitterView { transmit_byte: None, ..self.transmitter }
            } else {
                self.transmitter
            },
            ..self
        };
        let left = if !self.loopback() && self.vtty is Some && console.buffer.len() > 0 {
            VttyView { buffer: console.buffer.drop_first(), ..console }
        } else {
            console
        };
        match self.incoming(console) {
            None => UartStep { uart: taken, console: left, plan: Seq::empty() },
            Some(byte) => {
                let unread = !self.fifo_enabled() && self.receiver.len() > 0;
                let room = if unread {
                    Seq::empty()
                } else {
                    self.receiver
                };
                let overrun = unread || room.len() >= FIFO_SIZE;
                UartStep {
                    uart: UartView {
                        receiver: if room.len() < FIFO_SIZE {
                            room.push(Packet::Data(byte))
                        } else {
                            room
                        },
                        lsr: with(
                            with(
                                if overrun {
                                    with(self.lsr, LineStatus::OE, true)
                                } else {
                                    self.lsr
                                },
                                LineStatus::PE,
                                false,
                            ),
                            LineStatus::FE,
                            false,
                        ),
                        ..taken
                    },
                    console: left,
                    plan: Seq::empty(),
                }
            },
        }
    }

    /// The channel and the console after the receiver ran at the time
    /// `now`. Once a packet duration has passed since the last packet, the
    /// next is received if one waits; the data ready bit says whether the
    /// receiver queue holds data.
    #[verifier::opaque]
    pub open spec fn after_receiver(self, console: VttyView, now: u64) -> UartStep {
        let waited = elapsed(now, self.receive_instant);
        let step = if waited >= self.packet_duration && self.receive_available(console) {
            let received = self.after_receive(console);
            UartStep {
                uart: UartView {
                    receive_instant: if waited >= 2 * self.packet_duration {
                        now
                    } else {
                        after(self.receive_instant, self.packet_duration)
                    },
                    ..received.uart
                },
                ..received
            }
        } else {
            UartStep { uart: self, console, plan: Seq::empty() }
        };
        UartStep {
            uart: UartView {
                lsr: with(step.uart.lsr, LineStatus::DR, step.uart.receiver.len() > 0),
                ..step.uart
            },
            ..step
        }
    }

    /// Whether a packet can be transmitted: in loopback the line is free,
    /// otherwise the channel is wired to a console and the transmitter
    /// queue holds data.
    pub open spec fn transmit_possible(self) -> bool {
        if self.loopback() {
            self.transmitter.transmit_byte is None
        } else {
            self.vtty is Some && self.transmitter.fifo.len() > 0
        }
    }

    /// Whether a transmit puts a packet on the line: the transmitter queue
    /// holds data, and the channel is in loopback or wired to a console.
    pub open spec fn transmits(self) -> bool {
        self.transmitter.fifo.len() > 0 && (self.loopback() || self.vtty is Some)
    }

    /// The channel and the console after a packet was transmitted, if the
    /// transmitter queue held one: the oldest byte leaves the queue for the
    /// line, and outside loopback it is put to the console.
    #[verifier::opaque]
    pub open spec fn after_transmit(self, console: VttyView) -> UartStep {
        if self.transmitter.fifo.len() == 0 {
            UartStep { uart: self, console, plan: Seq::empty() }
        } else {
            let byte = self.transmitter.fifo[0];
            let sent = UartView {
                transmitter: TransmitterView {
                    fifo: self.transmitter.fifo.drop_first(),
                    transmit_byte: Some(byte),
                },
                ..self
            };
            if self.loopback() || self.vtty is None {
                UartStep { uart: sent, console, plan: Seq::empty() }
            } else {
                UartStep {
                    uart: sent,
                    console: VttyView {
                        replay_buffer: replay_put(console.replay_buffer, byte),
                        ..console
                    },
                    plan: console.put_plan(byte),
                }
            }
        }
    }

    /// The channel and the console after the transmitter ran at the time
    /// `now`. Once a packet duration has passed since the last packet, the
    /// next is transmitted if that is possible; after two packet durations
    /// with nothing to transmit the line is idle, and the console is
    /// flushed. The holding register is empty when the queue is.
    #[verifier::opaque]
    pub open spec fn after_transmitter(self, console: VttyView, now: u64) -> UartStep {
        let waited = elapsed(now, self.transmit_instant);
        let step = if waited < self.packet_duration {
            UartStep { uart: self, console, plan: Seq::empty() }
        } else if self.transmit_possible() {
            let sent = self.after_transmit(console);
            if !self.transmits() {
                sent
            } else if waited >= 2 * self.packet_duration {
                UartStep {
                    uart: UartView {
                        transmit_instant: now,
                        lsr: with(sent.uart.lsr, LineStatus::TEMT, false),
                        ..sent.uart
                    },
                    ..sent
                }
            } else {
                UartStep {
                    uart: UartView {
                        transmit_instant: after(self.transmit_instant, self.packet_duration),
                        ..sent.uart
                    },
                    ..sent
                }
            }
        } else if waited >= 2 * self.packet_duration {
            UartStep {
                uart: UartView {
                    transmitter: if self.loopback() {
                        TransmitterView { transmit_byte: None, ..self.transmitter }
                    } else {
                        self.transmitter
                    },
                    lsr: with(self.lsr, LineStatus::TEMT, true),
                    ..self
                },
                console,
                plan: if !self.loopback() && self.vtty is Some {
                    console.flush_plan()
                } else {
                    Seq::empty()
                },
            }
        } else {
            UartStep { uart: self, console, plan: Seq::empty() }
        };
        UartStep {
            uart: UartView {
                lsr: if step.uart.transmitter.fifo.len() == 0 {
                    with(step.uart.lsr, LineStatus::THRE, true)
                } else {
                    step.uart.lsr
                },
                ..step.uart
            },
            ..step
        }
    }

    /// The channel and the console after all the logic of the channel ran
    /// at the time `now`: modem control, receiver, transmitter, interrupt
    /// control.
    #[verifier::opaque]
    pub open spec fn after_tick(self, console: VttyView, now: u64) -> UartStep {
        let received = self.after_modem().after_receiver(console, now);
        let sent = received.uart.after_transmitter(received.console, now);
        UartStep {
            uart: sent.uart.after_interrupt(now),
            console: sent.console,
            plan: received.plan + sent.plan,
        }
    }
}

impl UartView {
    /// The value that a read of the register `idx` gives, if the channel
    /// has such a register. The receiver buffer gives the byte of the
    /// oldest packet, 0 where there is none.
    pub open spec fn read_value(self, idx: usize) -> Option<u8> {
        if idx == Ns16552::IDX_RBR_DLL_R {
            Some(
                if self.dlab() {
                    self.dll
                } else if self.receiver.len() > 0 {
                    self.receiver[0].spec_value()
                } else {
                    0
                },
            )
        } else if idx == Ns16552::IDX_IER_DLM_RW {
            Some(
                if self.dlab() {
                    self.dlm
                } else {
                    self.ier
                },
            )
        } else if idx == Ns16552::IDX_IIR_AFR_R {
            Some(
                if self.dlab() {
                    self.afr
                } else {
                    self.iir
                },
            )
        } else if idx == Ns16552::IDX_LCR_RW {
            Some(self.lcr)
        } else if idx == Ns16552::IDX_MCR_RW {
            Some(self.mcr)
        } else if idx == Ns16552::IDX_LSR_R {
            Some(self.lsr)
        } else if idx == Ns16552::IDX_MSR_R {
            Some(self.msr)
        } else if idx == Ns16552::IDX_SCR_RW {
            Some(self.scr)
        } else {
            None
        }
    }

    /// The line status after the packet `next` came to the front of the
    /// receiver queue: its error shows.
    pub open spec fn error_shown(lsr: u8, next: Packet) -> u8 {
        match next {
            Packet::ParityError(_) => with(lsr, LineStatus::PE, true),
            Packet::FrameError => with(lsr, LineStatus::FE, true),
            _ => lsr,
        }
    }

    /// The channel after the receiver buffer was read at the time `now`:
    /// the oldest packet has left the receiver queue, and the line status
    /// shows the error of the packet behind it and whether data is ready.
    pub open spec fn after_rbr_read(self, now: u64) -> UartView {
        if self.receiver.len() > 0 {
            let rest = self.receiver.drop_first();
            let cleared = with(with(self.lsr, LineStatus::PE, false), LineStatus::FE, false);
            UartView {
                read_instant: now,
                receiver: rest,
                lsr: with(
                    if rest.len() > 0 {
                        UartView::error_shown(cleared, rest[0])
                    } else {
                        cleared
                    },
                    LineStatus::DR,
                    rest.len() > 0,
                ),
                ..self
            }
        } else {
            UartView { read_instant: now, ..self }
        }
    }

    /// The channel after the line status was read: the latching errors are
    /// cleared, and the error in receiver fifo bit shows an error that
    /// waits in the receiver queue.
    pub open spec fn after_lsr_read(self) -> UartView {
        let cleared = with(
            with(
                with(
                    with(with(self.lsr, LineStatus::OE, false), LineStatus::PE, false),
                    LineStatus::FE,
                    false,
                ),
                LineStatus::BI,
                false,
            ),
            LineStatus::ERF,
            false,
        );
        UartView {
            lsr: if holds_error(self.receiver) {
                with(cleared, LineStatus::ERF, true)
            } else {
                cleared
            },
            ..self
        }
    }

    /// The channel after the modem status was read: the latched changes
    /// are cleared.
    pub open spec fn after_msr_read(self) -> UartView {
        UartView {
            msr: with(
                with(
                    with(with(self.msr, ModemStatus::DCTS, false), ModemStatus::DDSR, false),
                    ModemStatus::TERI,
                    false,
                ),
                ModemStatus::DDCD,
                false,
            ),
            ..self
        }
    }

    /// The channel after the register `idx` was read at the time `now`.
    pub open spec fn after_read(self, idx: usize, now: u64) -> UartView {
        if idx == Ns16552::IDX_RBR_DLL_R && !self.dlab() {
            self.after_rbr_read(now)
        } else if idx == Ns16552::IDX_LSR_R {
            self.after_lsr_read()
        } else if idx == Ns16552::IDX_MSR_R {
            self.after_msr_read()
        } else {
            self
        }
    }

    /// Whether the channel has a register `idx` that can be written.
    pub open spec fn writable(idx: usize) -> bool {
        ||| idx == Ns16552::IDX_THR_DLL_W
        ||| idx == Ns16552::IDX_IER_DLM_RW
        ||| idx == Ns16552::IDX_FCR_AFR_W
        ||| idx == Ns16552::IDX_LCR_RW
        ||| idx == Ns16552::IDX_MCR_RW
        ||| idx == Ns16552::IDX_SCR_RW
    }

    /// Whether the transmitter takes a byte written to the holding
    /// register: in fifo mode while the queue has space, in 16450 mode
    /// while it is empty.
    pub open spec fn holds(self) -> bool {
        if self.fifo_enabled() {
            self.transmitter.fifo.len() < FIFO_SIZE
        } else {
            self.transmitter.fifo.len() == 0
        }
    }

    /// The channel with `value` appended to the transmitter queue.
    pub open spec fn queued(self, value: u8) -> UartView {
        UartView {
            transmitter: TransmitterView {
                fifo: self.transmitter.fifo.push(value),
                ..self.transmitter
            },
            ..self
        }
    }

    /// The channel and the console after `value` was written to the
    /// transmitter holding register at the time `now`. Where the
    /// transmitter does not take the byte, the channel first hurries the
    /// packet that is under way: in loopback the transmitter and the
    /// receiver run as if a packet duration had passed and the byte is
    /// taken if the queue has space then; otherwise the transmitter runs so
    /// and the byte is taken if the queue is empty then. A byte that is not
    /// taken sets the overrun error.
    #[verifier::opaque]
    pub open spec fn after_thr_write(self, console: VttyView, value: u8, now: u64) -> UartStep {
        let start = UartView { lsr: with(self.lsr, LineStatus::THRE, false), ..self };
        if start.holds() {
            UartStep { uart: start.queued(value), console, plan: Seq::empty() }
        } else {
            let early = before(now, start.packet_duration);
            let hurried = if start.loopback() {
                let sent = (UartView {
                    transmit_instant: early,
                    receive_instant: early,
                    ..start
                }).after_transmitter(console, now);
                let received = sent.uart.after_receiver(sent.console, now);
                UartStep { plan: sent.plan + received.plan, ..received }
            } else {
                (UartView { transmit_instant: early, ..start }).after_transmitter(console, now)
            };
            let taken = if start.loopback() {
                hurried.uart.transmitter.fifo.len() < FIFO_SIZE
            } else {
                hurried.uart.transmitter.fifo.len() == 0
            };
            UartStep {
                uart: if taken {
                    hurried.uart.queued(value)
                } else {
                    UartView {
                        lsr: with(hurried.uart.lsr, LineStatus::OE, true),
                        ..hurried.uart
                    }
                },
                ..hurried
            }
        }
    }

    /// The channel and the console after `value` was written to the
    /// register `idx` at the time `now`. A write to a register that the
    /// channel does not have changes nothing.
    #[verifier::opaque]
    pub open spec fn after_write(self, console: VttyView, idx: usize, value: u8, now: u64)
        -> UartStep {
        let quiet = |uart: UartView| UartStep { uart, console, plan: Seq::empty() };
        if idx == Ns16552::IDX_THR_DLL_W {
            if self.dlab() {
                quiet((UartView { dll: value, ..self }).with_packet_duration())
            } else {
                self.after_thr_write(console, value, now)
            }
        } else if idx == Ns16552::IDX_IER_DLM_RW {
            if self.dlab() {
                quiet((UartView { dlm: value, ..self }).with_packet_duration())
            } else {
                quiet(UartView { ier: written(self.ier, Ns16552::MASK_IER_W, value), ..self })
            }
        } else if idx == Ns16552::IDX_FCR_AFR_W {
            if self.dlab() {
                quiet(UartView { afr: written(self.afr, Ns16552::MASK_AFR_W, value), ..self })
            } else {
                quiet(UartView { fcr: written(self.fcr, Ns16552::MASK_FCR_W, value), ..self })
            }
        } else if idx == Ns16552::IDX_LCR_RW {
            quiet((UartView { lcr: value, ..self }).with_packet_duration())
        } else if idx == Ns16552::IDX_MCR_RW {
            quiet(UartView { mcr: written(self.mcr, Ns16552::MASK_MCR_W, value), ..self })
        } else if idx == Ns16552::IDX_SCR_RW {
            quiet(UartView { scr: value, ..self })
        } else {
            quiet(self)
        }
    }
}

impl UartView {
    /// The channel and the console after an access of the host to the
    /// register `idx` at the time `now`: the logic of the channel runs
    /// before and after the register is read.
    #[verifier::opaque]
    pub open spec fn after_read_access(self, console: VttyView, idx: usize, now: u64) -> UartStep {
        let before = self.after_tick(console, now);
        let behind = before.uart.after_read(idx, now).after_tick(before.console, now);
        UartStep { plan: before.plan + behind.plan, ..behind }
    }

    /// The channel and the console after an access of the host that writes
    /// `value` to the register `idx` at the time `now`: the logic of the
    /// channel runs before and after the register is written.
    #[verifier::opaque]
    pub open spec fn after_write_access(self, console: VttyView, idx: usize, value: u8, now: u64)
        -> UartStep {
        let before = self.after_tick(console, now);
        let wrote = before.uart.after_write(before.console, idx, value, now);
        let behind = wrote.uart.after_tick(wrote.console, now);
        UartStep { plan: before.plan + wrote.plan + behind.plan, ..behind }
    }
}

/// A channel and its console after a step of the channel, with what the
/// host is to do for the console.
pub struct UartStep {
    pub uart: UartView,
    pub console: VttyView,
    pub plan: Seq<VttyActionView>,
}

/// The modem status after the line `line` was seen in the state `on`.
fn see_line(msr: u8, line: u8, delta: u8, on: bool, latch: bool) -> (r: u8)
    ensures
        r == UartView::line_seen(msr, line, delta, on, latch),
{
    if bit(msr, line) == on {
        msr
    } else if latch {
        put(put(msr, line, on), delta, true)
    } else {
        put(msr, line, on)
    }
}

impl Uart {
    /// A channel after reset, created at the time `now`.
    pub fn new(now: u64) -> (uart: Self)
        ensures
            uart@ == UartView::reset(now),
    {
        let mut uart = Uart {
            vtty: None,
            modem: Modem::default(),
            packet_duration: 0,
            transmit_instant: now,
            receive_instant: now,
            read_instant: now,
            transmitter: TransmitterMemory::default(),
            receiver: ReceiverMemory::default(),
            // Table III. DUART Reset Configuration
            ier: 0b0000_0000,
            iir: 0b0000_0001,
            fcr: 0b0000_0000,
            lcr: 0b0000_0000,
            mcr: 0b0000_0000,
            lsr: 0b0110_0000,
            msr: 0b0000_0000,
            afr: 0b0000_0000,
            scr: 0b0000_0000,
            dll: 0b0000_0000,
            dlm: 0b0000_0000,
        };
        // sane default communication
        uart.dll = 24;  // baud 9600
        uart.lcr = 0b0000_0011;  // 8 data bits
        uart.update_packet_duration();
        uart
    }

    pub fn has_interrupt(&self) -> (b: bool)
        ensures
            b == self@.has_interrupt(),
    {
        !bit(self.iir, InterruptIdentification::IP)
    }

    /// Wires the channel to the console `vtty`, or to nothing. `char_avail`
    /// says whether the console has a character waiting.
    pub fn set_vtty(&mut self, vtty: Option<u64>, char_avail: bool)
        ensures
            final(self)@ == old(self)@.wired(vtty, char_avail),
    {
        self.vtty = vtty;
        match vtty {
            None => {
                // disconnected
                self.modem.cts = false;
                self.modem.dsr = false;
                self.modem.dcd = false;
                self.modem.ri = false;
            },
            Some(_) => {
                self.modem.cts = true;  // assume the vtty can send data
                self.modem.dsr = char_avail;
                self.modem.dcd = true;  // assume the vtty is connected
                self.modem.ri = false;  // vtty does not have incoming calls
            },
        }
    }

    /// Modem Control Logic [<CTS] [<DSR] [<DCD] [<RI] [<>MCR] [>MSR] [>RTS] [>DTR] [>OUT1] [>OUT2]
    pub fn modem_control_logic(&mut self, _now: u64)
        ensures
            final(self)@ == old(self)@.after_modem(),
    {
        reveal(UartView::after_modem);
        let (cts, dsr, dcd, ri);
        if bit(self.mcr, ModemControl::LOOP) {
            cts = bit(self.mcr, ModemControl::RTS);
            dsr = bit(self.mcr, ModemControl::DTR);
            dcd = bit(self.mcr, ModemControl::OUT1);
            ri = bit(self.mcr, ModemControl::OUT2);
        } else {
            cts = self.modem.cts;
            dsr = self.modem.dsr;
            dcd = self.modem.dcd;
            ri = self.modem.ri;
        }
        let mut msr = self.msr;
        msr = see_line(msr, ModemStatus::CTS, ModemStatus::DCTS, cts, true);
        msr = see_line(msr, ModemStatus::DSR, ModemStatus::DDSR, dsr, true);
        msr = see_line(msr, ModemStatus::RI, ModemStatus::TERI, ri, ri);
        msr = see_line(msr, ModemStatus::DCD, ModemStatus::DDCD, dcd, true);
        self.msr = msr;
    }

    /// The cause of highest priority that is enabled and present.
    fn interrupt_cause(&self, now: u64) -> (cause: Option<u8>)
        ensures
            cause == self@.interrupt_cause(now),
    {
        let fifo = bit(self.fcr, FifoControl::FE);
        // highest priority level
        if bit(self.ier, InterruptEnable::ELSI) && bit(self.lsr, LineStatus::ERRORS) {
            // Overrun error, parity error, framing error, or break interrupt
            return Some(InterruptIdentification::RECEIVER_LINE_STATUS);
        }
        // second priority level
        if bit(self.ier, InterruptEnable::ERDAI) {
            let data_ready = if fifo {
                let level = (self.fcr & FifoControl::RT) >> 6;
                let trigger: usize = if level == 0 {
                    1
                } else if level == 1 {
                    4
                } else if level == 2 {
                    8
                } else {
                    14
                };
                rx_len(&self.receiver.fifo) >= trigger
            } else {
                bit(self.lsr, LineStatus::DR)
            };
            if data_ready {
                return Some(InterruptIdentification::RECEIVED_DATA_AVAILABLE);
            }
            if fifo && self.receiver.has_data() {
                let receive_elapsed = now.saturating_sub(self.receive_instant);
                let read_elapsed = now.saturating_sub(self.read_instant);
                let long = 4 * (self.packet_duration as u128);
                if receive_elapsed as u128 >= long && read_elapsed as u128 >= long {
                    return Some(InterruptIdentification::FIFO_TIMEOUT);
                }
            }
        }
        // third priority level
        if bit(self.ier, InterruptEnable::ETHREI) && bit(self.lsr, LineStatus::THRE) {
            return Some(InterruptIdentification::TRANSMITTER_HOLDING_REGISTER_EMPTY);
        }
        // fourth priority level
        if bit(self.ier, InterruptEnable::EMSI) && bit(self.msr, ModemStatus::DELTAS) {
            return Some(InterruptIdentification::MODEM_STATUS);
        }
        None
    }

    /// Interrupt Control Logic [<>IER] [>IIR] [>INTRPT]
    pub fn interrupt_control_logic(&mut self, now: u64)
        ensures
            final(self)@ == old(self)@.after_interrupt(now),
    {
        reveal(UartView::after_interrupt);
        let shown = put(self.iir, InterruptIdentification::FE, bit(self.fcr, FifoControl::FE));
        match self.interrupt_cause(now) {
            Some(cause) => {
                let pending = put(shown, InterruptIdentification::IP, false);
                self.iir = (pending & !InterruptIdentification::IIB) | (cause
                    & InterruptIdentification::IIB);
            },
            None => {
                // no interrupt
                let idle = put(shown, InterruptIdentification::IP, true);
                self.iir = (idle & !InterruptIdentification::IIB) | (0
                    & InterruptIdentification::IIB);
            },
        }
    }

    /// Sets the packet duration to what the line control register and the
    /// divisor latch ask for.
    pub fn update_packet_duration(&mut self)
        ensures
            final(self)@ == old(self)@.with_packet_duration(),
    {
        let ticks_per_second = Fraction(Ns16552::CRYSTAL_HZ, 16);
        let lcr = self.lcr;
        let wls = lcr & LineControl::WLS;
        assert(wls <= 3) by (bit_vector)
            requires
                wls == lcr & 0x03u8,
        ;
        let data_bits: u32 = 5 + wls as u32;
        let parity_bits: u32 = if bit(lcr, LineControl::PEN) {
            1
        } else {
            0
        };
        let divisor: u32 = self.dll as u32 + 256 * self.dlm as u32;
        let bits: u32 = 1 + data_bits + parity_bits;
        assert(divisor * (bits + 2) <= 65535 * 12) by (nonlinear_arith)
            requires
                divisor <= 65535,
                bits <= 10,
        ;
        assert(divisor * (bits + 1) <= 65535 * 12) by (nonlinear_arith)
            requires
                divisor <= 65535,
                bits <= 10,
        ;
        assert(2 * divisor * (bits + 1) <= 2 * 65535 * 12) by (nonlinear_arith)
            requires
                divisor <= 65535,
                bits <= 10,
        ;
        let packets_per_second = if bit(lcr, LineControl::STB) {
            if data_bits == 5 {
                // 1.5 stop bits
                ticks_per_second.mul_div(2, 2 * divisor * (bits + 1) + 1)
            } else {
                ticks_per_second / (divisor * (bits + 2))
            }
        } else {
            ticks_per_second / (divisor * (bits + 1))
        };
        proof {
            let packet = 1 + self::data_bits(lcr) + self::parity_bits(lcr);
            let div = self::divisor(self.dll, self.dlm);
            assert(packet == bits && div == divisor);
            lemma_reduced_parts(
                Fraction(
                    (Ns16552::CRYSTAL_HZ * 2) as u32,
                    (16 * (2 * div * (packet + 1) + 1)) as u32,
                ),
            );
            lemma_reduced_parts(Fraction(Ns16552::CRYSTAL_HZ, (16 * (div * (packet + 2))) as u32));
            lemma_reduced_parts(Fraction(Ns16552::CRYSTAL_HZ, (16 * (div * (packet + 1))) as u32));
        }
        self.packet_duration = packets_per_second.invert().into_nanos();
    }
    pub fn tick(&mut self, now: u64, vtty: &mut Vtty) -> (plan: Vec<VttyAction>)
        ensures
            final(self)@ == old(self)@.after_tick(old(vtty)@, now).uart,
            final(vtty)@ == old(self)@.after_tick(old(vtty)@, now).console,
            plan_of(plan@) == old(self)@.after_tick(old(vtty)@, now).plan,
    {
        reveal(UartView::after_tick);
        self.modem_control_logic(now);
        let mut plan = self.receiver_timing_and_control(now, vtty);
        let sent = self.transmitter_timing_and_control(now, vtty);
        plan_append(&mut plan, sent);
        self.interrupt_control_logic(now);
        plan
    }

    pub fn receive_packet_is_available(&mut self, vtty: &Vtty) -> (b: bool)
        ensures
            b == old(self)@.receive_available(vtty@),
            final(self)@ == old(self)@,
    {
        if bit(self.mcr, ModemControl::LOOP) {
            self.transmitter.transmit_byte.is_some()
        } else {
            self.vtty.is_some() && vtty_is_char_avail(vtty) != 0
        }
    }

    /// Receives a packet if one waits, and says whether one did.
    pub fn receive_packet(&mut self, vtty: &mut Vtty) -> (received: bool)
        ensures
            received == (old(self)@.incoming(old(vtty)@) is Some),
            final(self)@ == old(self)@.after_receive(old(vtty)@).uart,
            final(vtty)@ == old(self)@.after_receive(old(vtty)@).console,
    {
        reveal(UartView::after_receive);
        let some_byte = if bit(self.mcr, ModemControl::LOOP) {
            let byte = self.transmitter.transmit_byte;
            self.transmitter.transmit_byte = None;
            byte
        } else {
            if self.vtty.is_none() {
                return false;
            }
            let c = vtty_get_char(vtty);
            if c < 0 {
                None
            } else {
                Some(c as u8)
            }
        };
        if let Some(byte) = some_byte {
            let mut overrun = false;
            if !bit(self.fcr, FifoControl::FE) && self.receiver.has_data() {
                // Overrun Error (NS16450 mode)
                overrun = true;
                self.receiver.reset();
            }
            if !self.receiver.push(Packet::Data(byte)) {
                // Overrun Error (FIFO mode)
                overrun = true;
            }
            if overrun {
                self.lsr = put(self.lsr, LineStatus::OE, true);
            }
            self.lsr = put(self.lsr, LineStatus::PE, false);
            self.lsr = put(self.lsr, LineStatus::FE, false);
            true
        } else {
            false
        }
    }

    pub fn transmit_packet_is_possible(&self) -> (b: bool)
        ensures
            b == self@.transmit_possible(),
    {
        if bit(self.mcr, ModemControl::LOOP) {
            self.transmitter.transmit_byte.is_none()
        } else {
            self.vtty.is_some() && self.transmitter.has_data()
        }
    }

    /// Transmits a packet if the transmitter queue holds one, and says
    /// whether it is on the line.
    pub fn transmit_packet(&mut self, vtty: &mut Vtty) -> (r: (bool, Vec<VttyAction>))
        ensures
            r.0 == old(self)@.transmits(),
            final(self)@ == old(self)@.after_transmit(old(vtty)@).uart,
            final(vtty)@ == old(self)@.after_transmit(old(vtty)@).console,
            plan_of(r.1@) == old(self)@.after_transmit(old(vtty)@).plan,
    {
        reveal(UartView::after_transmit);
        if let Some(byte) = self.transmitter.pop() {
            self.transmitter.transmit_byte = Some(byte);
            if !bit(self.mcr, ModemControl::LOOP) {
                if self.vtty.is_none() {
                    return (false, Vec::new());
                }
                let plan = vtty_put_char(vtty, byte);
                return (true, plan);
            }
            (true, Vec::new())
        } else {
            (false, Vec::new())
        }
    }

    /// Receiver Timing and Control [<RCLK] [<>RSR] [<>LCR] [<>LSR] [>RBR]
    pub fn receiver_timing_and_control(&mut self, now: u64, vtty: &mut Vtty) -> (plan: Vec<
        VttyAction,
    >)
        ensures
            final(self)@ == old(self)@.after_receiver(old(vtty)@, now).uart,
            final(vtty)@ == old(self)@.after_receiver(old(vtty)@, now).console,
            plan_of(plan@) == old(self)@.after_receiver(old(vtty)@, now).plan,
    {
        reveal(UartView::after_receiver);
        reveal(UartView::after_receive);
        let elapsed = now.saturating_sub(self.receive_instant);
        if elapsed < self.packet_duration {
            // delay arrival of next packet
        } else if self.receive_packet_is_available(vtty) {
            // can receive next packet
            if self.receive_packet(vtty) {
                // received next packet
                if elapsed as u128 >= 2 * (self.packet_duration as u128) {
                    // start receiving
                    self.receive_instant = now;
                } else {
                    // continue receiving
                    self.receive_instant = self.receive_instant.saturating_add(
                        self.packet_duration,
                    );
                }
            }
        }
        self.lsr = put(self.lsr, LineStatus::DR, self.receiver.has_data());
        Vec::new()
    }

    /// Transmitter Timing and Control [<BAUDOUT] [<LCR] [<BG] [<>TSR] [>LSR]
    pub fn transmitter_timing_and_control(&mut self, now: u64, vtty: &mut Vtty) -> (plan: Vec<
        VttyAction,
    >)
        ensures
            final(self)@ == old(self)@.after_transmitter(old(vtty)@, now).uart,
            final(vtty)@ == old(self)@.after_transmitter(old(vtty)@, now).console,
            plan_of(plan@) == old(self)@.after_transmitter(old(vtty)@, now).plan,
    {
        reveal(UartView::after_transmitter);
        reveal(UartView::after_transmit);
        let mut plan: Vec<VttyAction> = Vec::new();
        let elapsed = now.saturating_sub(self.transmit_instant);
        if elapsed < self.packet_duration {
            // delay transmission of next packet
        } else if self.transmit_packet_is_possible() {
            // can transmit next packet
            let (sent, put) = self.transmit_packet(vtty);
            plan = put;
            if sent {
                // transmitting next packet
                if elapsed as u128 >= 2 * (self.packet_duration as u128) {
                    // start transmitting
                    self.transmit_instant = now;
                    self.lsr = self::put(self.lsr, LineStatus::TEMT, false);
                } else {
                    // continue transmitting
                    self.transmit_instant = self.transmit_instant.saturating_add(
                        self.packet_duration,
                    );
                }
            }
        } else if elapsed as u128 >= 2 * (self.packet_duration as u128) {
            // stop transmitting
            if bit(self.mcr, ModemControl::LOOP) {
                self.transmitter.transmit_byte = None;
            } else if self.vtty.is_some() {
                plan = vtty_flush(vtty);
            }
            self.lsr = self::put(self.lsr, LineStatus::TEMT, true);
        }
        if self.transmitter.is_empty() {
            self.lsr = self::put(self.lsr, LineStatus::THRE, true);
        }
        plan
    }
    /// Reads the register `idx` at the time `now`. Gives nothing where the
    /// channel has no such register.
    pub fn read_access(&mut self, idx: usize, now: u64) -> (value: Option<u8>)
        ensures
            value == old(self)@.read_value(idx),
            final(self)@ == old(self)@.after_read(idx, now),
    {
        let dlab = bit(self.lcr, LineControl::DLAB);
        if idx == Ns16552::IDX_RBR_DLL_R {
            if !dlab {
                // RBR
                self.read_instant = now;
                if let Some(packet) = self.receiver.pop() {
                    let mut lsr = self.lsr;
                    lsr = put(lsr, LineStatus::PE, false);  // LH or next character
                    lsr = put(lsr, LineStatus::FE, false);  // LH or next character
                    if let Some(next) = self.receiver.peek() {
                        match next {
                            Packet::ParityError(_) => {
                                lsr = put(lsr, LineStatus::PE, true);
                            },
                            Packet::FrameError => {
                                lsr = put(lsr, LineStatus::FE, true);
                            },
                            _ => {},
                        }
                    }
                    self.lsr = put(lsr, LineStatus::DR, self.receiver.has_data());
                    Some(packet.value())
                } else {
                    Some(0)
                }
            } else {
                Some(self.dll)
            }
        } else if idx == Ns16552::IDX_IER_DLM_RW {
            if !dlab {
                Some(self.ier)
            } else {
                Some(self.dlm)
            }
        } else if idx == Ns16552::IDX_IIR_AFR_R {
            if !dlab {
                Some(self.iir)
            } else {
                Some(self.afr)
            }
        } else if idx == Ns16552::IDX_LCR_RW {
            Some(self.lcr)
        } else if idx == Ns16552::IDX_MCR_RW {
            Some(self.mcr)
        } else if idx == Ns16552::IDX_LSR_R {
            let value = self.lsr;
            let mut lsr = self.lsr;
            lsr = put(lsr, LineStatus::OE, false);  // LH
            lsr = put(lsr, LineStatus::PE, false);  // LH
            lsr = put(lsr, LineStatus::FE, false);  // LH
            lsr = put(lsr, LineStatus::BI, false);  // LH
            lsr = put(lsr, LineStatus::ERF, false);  // LH
            if self.receiver.has_error_in_fifo() {
                lsr = put(lsr, LineStatus::ERF, true);
            }
            self.lsr = lsr;
            Some(value)
        } else if idx == Ns16552::IDX_MSR_R {
            let value = self.msr;
            let mut msr = self.msr;
            msr = put(msr, ModemStatus::DCTS, false);  // LH
            msr = put(msr, ModemStatus::DDSR, false);  // LH
            msr = put(msr, ModemStatus::TERI, false);  // LH
            msr = put(msr, ModemStatus::DDCD, false);  // LH
            self.msr = msr;
            Some(value)
        } else if idx == Ns16552::IDX_SCR_RW {
            Some(self.scr)
        } else {
            None
        }
    }

    /// Writes `value` to the transmitter holding register.
    fn write_thr(&mut self, value: u8, now: u64, vtty: &mut Vtty) -> (plan: Vec<VttyAction>)
        ensures
            final(self)@ == old(self)@.after_thr_write(old(vtty)@, value, now).uart,
            final(vtty)@ == old(self)@.after_thr_write(old(vtty)@, value, now).console,
            plan_of(plan@) == old(self)@.after_thr_write(old(vtty)@, value, now).plan,
    {
        reveal(UartView::after_thr_write);
        let mut plan: Vec<VttyAction> = Vec::new();
        self.lsr = put(self.lsr, LineStatus::THRE, false);
        let mut overrun_error = false;
        if bit(self.fcr, FifoControl::FE) {
            if !self.transmitter.push(value) {
                overrun_error = true;
            }
        } else if !self.transmitter.has_data() && self.transmitter.push(value) {
        } else {
            overrun_error = true;
        }
        // the microcode prints bytes in bulk without checking: avoid data
        // loss by sending stuff early
        if overrun_error {
            if bit(self.mcr, ModemControl::LOOP) {
                self.transmit_instant = now.saturating_sub(self.packet_duration);
                self.receive_instant = now.saturating_sub(self.packet_duration);
                plan = self.transmitter_timing_and_control(now, vtty);
                let received = self.receiver_timing_and_control(now, vtty);
                plan_append(&mut plan, received);
                if self.transmitter.push(value) {
                    overrun_error = false;  // overrun avoided
                }
            } else {
                self.transmit_instant = now.saturating_sub(self.packet_duration);
                plan = self.transmitter_timing_and_control(now, vtty);
                if !self.transmitter.has_data() && self.transmitter.push(value) {
                    overrun_error = false;  // overrun avoided
                }
            }
            if overrun_error {
                self.lsr = put(self.lsr, LineStatus::OE, true);
            }
        }
        plan
    }

    /// Writes `value` to the register `idx` at the time `now`. Gives
    /// nothing where the channel has no such register to write.
    pub fn write_access(&mut self, idx: usize, value: u8, now: u64, vtty: &mut Vtty) -> (r: (
        Option<()>,
        Vec<VttyAction>,
    ))
        ensures
            r.0 is Some <==> UartView::writable(idx),
            final(self)@ == old(self)@.after_write(old(vtty)@, idx, value, now).uart,
            final(vtty)@ == old(self)@.after_write(old(vtty)@, idx, value, now).console,
            plan_of(r.1@) == old(self)@.after_write(old(vtty)@, idx, value, now).plan,
    {
        reveal(UartView::after_write);
        let dlab = bit(self.lcr, LineControl::DLAB);
        let mut plan: Vec<VttyAction> = Vec::new();
        if idx == Ns16552::IDX_THR_DLL_W {
            if !dlab {
                // THR
                plan = self.write_thr(value, now, vtty);
            } else {
                self.dll = value;
                self.update_packet_duration();
            }
        } else if idx == Ns16552::IDX_IER_DLM_RW {
            if !dlab {
                self.ier = (self.ier & !Ns16552::MASK_IER_W) | (value & Ns16552::MASK_IER_W);
            } else {
                self.dlm = value;
                self.update_packet_duration();
            }
        } else if idx == Ns16552::IDX_FCR_AFR_W {
            if !dlab {
                self.fcr = (self.fcr & !Ns16552::MASK_FCR_W) | (value & Ns16552::MASK_FCR_W);
            } else {
                self.afr = (self.afr & !Ns16552::MASK_AFR_W) | (value & Ns16552::MASK_AFR_W);
            }
        } else if idx == Ns16552::IDX_LCR_RW {
            self.lcr = value;
            self.update_packet_duration();
        } else if idx == Ns16552::IDX_MCR_RW {
            self.mcr = (self.mcr & !Ns16552::MASK_MCR_W) | (value & Ns16552::MASK_MCR_W);
        } else if idx == Ns16552::IDX_SCR_RW {
            self.scr = value;
        } else {
            return (None, plan);
        }
        (Some(()), plan)
    }
    /// An access of the host that reads the register `idx`.
    pub(crate) fn access_read(&mut self, idx: usize, now: u64, vtty: &mut Vtty) -> (r: (
        Option<u8>,
        Vec<VttyAction>,
    ))
        ensures
            r.0 == old(self)@.after_tick(old(vtty)@, now).uart.read_value(idx),
            final(self)@ == old(self)@.after_read_access(old(vtty)@, idx, now).uart,
            final(vtty)@ == old(self)@.after_read_access(old(vtty)@, idx, now).console,
            plan_of(r.1@) == old(self)@.after_read_access(old(vtty)@, idx, now).plan,
    {
        reveal(UartView::after_read_access);
        let mut plan = self.tick(now, vtty);
        let ret = self.read_access(idx, now);
        let behind = self.tick(now, vtty);
        plan_append(&mut plan, behind);
        (ret, plan)
    }

    /// An access of the host that writes `value` to the register `idx`.
    pub(crate) fn access_write(&mut self, idx: usize, value: u8, now: u64, vtty: &mut Vtty) -> (r: (
        Option<()>,
        Vec<VttyAction>,
    ))
        ensures
            r.0 is Some <==> UartView::writable(idx),
            final(self)@ == old(self)@.after_write_access(old(vtty)@, idx, value, now).uart,
            final(vtty)@ == old(self)@.after_write_access(old(vtty)@, idx, value, now).console,
            plan_of(r.1@) == old(self)@.after_write_access(old(vtty)@, idx, value, now).plan,
    {
        reveal(UartView::after_write_access);
        let mut plan = self.tick(now, vtty);
        let (done, wrote) = self.write_access(idx, value, now, vtty);
        plan_append(&mut plan, wrote);
        let behind = self.tick(now, vtty);
        plan_append(&mut plan, behind);
        (done, plan)
    }
}

} // verus!
