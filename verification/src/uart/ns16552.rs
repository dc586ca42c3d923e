//! Dual UART with 16 byte buffer
//!
//! A model of the registers of a dual UART: what reading and writing a
//! register does, how packets move between the registers, the queues and
//! the console of each channel as time passes, and when the chip raises
//! its interrupt. In 16450 mode the buffer is 1 byte.

pub use super::channel::Modem;
pub use super::channel::Uart;
pub use super::channel::UartStep;
pub use super::channel::UartView;
pub use super::memory::Packet;
pub use super::memory::ReceiverMemory;
pub use super::memory::TransmitterMemory;

use super::registers::any_set;
use super::registers::bit;
use super::registers::written;
use super::registers::AlternateFunction;
use crate::c::dev_vtty::action::plan_of;
use crate::c::dev_vtty::Vtty;
use crate::c::dev_vtty::VttyAction;
use crate::c::dev_vtty::VttyActionView;
use crate::c::dev_vtty::VttyView;
use vstd::prelude::*;

verus! {

/// Dual UART with 16 byte buffer
#[derive(Debug)]
pub struct Ns16552 {
    pub uart: [Uart; 2],
    /// Virtual machine for interrupts: the handle of the machine, if the
    /// chip is wired to one.
    pub vm: Option<usize>,
    /// Interrupt identifier
    pub irq: u32,
}

impl Ns16552 {
    pub const IDX_RBR_DLL_R: usize = 0;
    pub const IDX_THR_DLL_W: usize = 0;
    pub const IDX_IER_DLM_RW: usize = 1;
    pub const IDX_IIR_AFR_R: usize = 2;
    pub const IDX_FCR_AFR_W: usize = 2;
    pub const IDX_LCR_RW: usize = 3;
    pub const IDX_MCR_RW: usize = 4;
    pub const IDX_LSR_R: usize = 5;
    pub const IDX_MSR_R: usize = 6;
    pub const IDX_SCR_RW: usize = 7;
    pub const MASK_IER_W: u8 = 0b0000_1111;
    pub const MASK_FCR_W: u8 = 0b1100_1111;
    pub const MASK_MCR_W: u8 = 0b0001_1111;
    pub const MASK_AFR_W: u8 = 0b0000_0111;
    pub const CRYSTAL_HZ: u32 = 3_686_400;
}

/// A chip as a mathematical value.
pub struct Ns16552View {
    pub uart: Seq<UartView>,
    pub vm: Option<usize>,
    pub irq: u32,
}

impl View for Ns16552 {
    type V = Ns16552View;

    open spec fn view(&self) -> Ns16552View {
        Ns16552View { uart: seq![self.uart[0]@, self.uart[1]@], vm: self.vm, irq: self.irq }
    }
}

/// A chip and the consoles of its two channels after an operation of the
/// chip, with what the host is to do for each console.
pub struct Ns16552Step {
    pub chip: Ns16552View,
    pub console0: VttyView,
    pub console1: VttyView,
    pub plan0: Seq<VttyActionView>,
    pub plan1: Seq<VttyActionView>,
}

impl Ns16552View {
    /// What becomes of the interrupt of the chip: raised if a channel
    /// raises its interrupt, cleared if none does; nothing where the chip
    /// is wired to no machine.
    pub open spec fn interrupt(self) -> Option<bool> {
        match self.vm {
            None => None,
            Some(_) => Some(self.uart[0].has_interrupt() || self.uart[1].has_interrupt()),
        }
    }

    /// Whether the register `idx` of the chip belongs to one of its two
    /// channels: each channel has eight.
    pub open spec fn in_range(idx: usize) -> bool {
        idx / 8 < 2
    }

    /// Whether a write goes to both channels at the same time.
    pub open spec fn concurrent_write(self) -> bool {
        any_set(self.uart[0].afr, AlternateFunction::CW)
    }

    /// The chip and its consoles after all the logic of both channels ran
    /// at the time `now`.
    pub open spec fn after_tick(self, console0: VttyView, console1: VttyView, now: u64)
        -> Ns16552Step {
        let first = self.uart[0].after_tick(console0, now);
        let second = self.uart[1].after_tick(console1, now);
        Ns16552Step {
            chip: Ns16552View { uart: seq![first.uart, second.uart], ..self },
            console0: first.console,
            console1: second.console,
            plan0: first.plan,
            plan1: second.plan,
        }
    }

    /// The chip and its consoles after the register `idx` was read at the
    /// time `now`. A register beyond the two channels changes nothing.
    pub open spec fn after_read(self, console0: VttyView, console1: VttyView, idx: usize, now: u64)
        -> Ns16552Step {
        let idle = Ns16552Step {
            chip: self,
            console0,
            console1,
            plan0: Seq::empty(),
            plan1: Seq::empty(),
        };
        if idx / 8 == 0 {
            let step = self.uart[0].after_read_access(console0, idx % 8, now);
            Ns16552Step {
                chip: Ns16552View { uart: seq![step.uart, self.uart[1]], ..self },
                console0: step.console,
                plan0: step.plan,
                ..idle
            }
        } else if idx / 8 == 1 {
            let step = self.uart[1].after_read_access(console1, idx % 8, now);
            Ns16552Step {
                chip: Ns16552View { uart: seq![self.uart[0], step.uart], ..self },
                console1: step.console,
                plan1: step.plan,
                ..idle
            }
        } else {
            idle
        }
    }

    /// The chip with the concurrent write bit of both channels set as the
    /// channel `channel` has it.
    pub open spec fn linked(self, channel: int) -> Ns16552View {
        let cw = self.uart[channel].afr & AlternateFunction::CW;
        Ns16552View {
            uart: seq![
                UartView {
                    afr: written(self.uart[0].afr, AlternateFunction::CW, cw),
                    ..self.uart[0]
                },
                UartView {
                    afr: written(self.uart[1].afr, AlternateFunction::CW, cw),
                    ..self.uart[1]
                },
            ],
            ..self
        }
    }

    /// The chip and its consoles after `value` was written to the
    /// register `idx` of both channels at the time `now`.
    pub open spec fn after_write_both(
        self,
        console0: VttyView,
        console1: VttyView,
        idx: usize,
        value: u8,
        now: u64,
    ) -> Ns16552Step {
        let first = self.uart[0].after_write_access(console0, idx, value, now);
        let second = self.uart[1].after_write_access(console1, idx, value, now);
        Ns16552Step {
            chip: Ns16552View { uart: seq![first.uart, second.uart], ..self },
            console0: first.console,
            console1: second.console,
            plan0: first.plan,
            plan1: second.plan,
        }
    }

    /// The chip and its consoles after `value` was written to the
    /// register `idx` of the channel `channel` at the time `now`.
    pub open spec fn after_write_one(
        self,
        console0: VttyView,
        console1: VttyView,
        channel: usize,
        idx: usize,
        value: u8,
        now: u64,
    ) -> Ns16552Step {
        if channel == 0 {
            let step = self.uart[0].after_write_access(console0, idx, value, now);
            Ns16552Step {
                chip: Ns16552View { uart: seq![step.uart, self.uart[1]], ..self },
                console0: step.console,
                console1,
                plan0: step.plan,
                plan1: Seq::empty(),
            }
        } else {
            let step = self.uart[1].after_write_access(console1, idx, value, now);
            Ns16552Step {
                chip: Ns16552View { uart: seq![self.uart[0], step.uart], ..self },
                console0,
                console1: step.console,
                plan0: Seq::empty(),
                plan1: step.plan,
            }
        }
    }

    /// The chip and its consoles after `value` was written to the register
    /// `idx` at the time `now`. With concurrent write the register of both
    /// channels is written; otherwise that of the channel that `idx` names,
    /// and a write to the alternate function or fifo control register
    /// links the concurrent write bits of both channels. A register beyond
    /// the two channels changes nothing.
    pub open spec fn after_write(
        self,
        console0: VttyView,
        console1: VttyView,
        idx: usize,
        value: u8,
        now: u64,
    ) -> Ns16552Step {
        if !Ns16552View::in_range(idx) {
            Ns16552Step { chip: self, console0, console1, plan0: Seq::empty(), plan1: Seq::empty() }
        } else if self.concurrent_write() {
            self.after_write_both(console0, console1, idx % 8, value, now)
        } else {
            let wrote = self.after_write_one(console0, console1, idx / 8, idx % 8, value, now);
            if idx % 8 == Ns16552::IDX_FCR_AFR_W {
                Ns16552Step { chip: wrote.chip.linked((idx / 8) as int), ..wrote }
            } else {
                wrote
            }
        }
    }
}

/// What the host is to do after an operation of the chip.
#[derive(Debug, Clone, PartialEq, Eq)]
pub struct Ns16552Plan {
    /// Raise the interrupt of the chip (`true`) or clear it (`false`);
    /// nothing where the chip is wired to no machine.
    pub irq: Option<bool>,
    /// What to do for the console of the first channel.
    pub console0: Vec<VttyAction>,
    /// What to do for the console of the second channel.
    pub console1: Vec<VttyAction>,
}

impl Ns16552 {
    /// A chip after reset, wired to no machine and no console, created at
    /// the time `now`.
    pub fn new(now: u64) -> (chip: Self)
        ensures
            chip@ == (Ns16552View {
                uart: seq![UartView::reset(now), UartView::reset(now)],
                vm: None,
                irq: 0,
            }),
    {
        Self { uart: [Uart::new(now), Uart::new(now)], vm: None, irq: 0 }
    }

    /// A chip after reset, wired to the machine `vm` with the interrupt
    /// `irq`, its channels wired to the consoles `vtty0` and `vtty1`;
    /// `avail0` and `avail1` say whether each console has a character
    /// waiting.
    pub fn new_from_c(
        vm: Option<usize>,
        irq: u32,
        vtty0: Option<u64>,
        avail0: bool,
        vtty1: Option<u64>,
        avail1: bool,
        now: u64,
    ) -> (chip: Self)
        ensures
            chip@ == (Ns16552View {
                uart: seq![
                    UartView::reset(now).wired(vtty0, avail0),
                    UartView::reset(now).wired(vtty1, avail1),
                ],
                vm,
                irq,
            }),
    {
        let mut uart0 = Uart::new(now);
        let mut uart1 = Uart::new(now);
        uart0.set_vtty(vtty0, avail0);
        uart1.set_vtty(vtty1, avail1);
        Self { uart: [uart0, uart1], vm, irq }
    }

    /// Shared Interrupt Control Logic
    pub fn shared_interrupt_control_logic(&self, _now: u64) -> (irq: Option<bool>)
        ensures
            irq == self@.interrupt(),
    {
        match self.vm {
            None => None,
            Some(_) => Some(self.uart[0].has_interrupt() || self.uart[1].has_interrupt()),
        }
    }

    /// Trigger all the chip logic.
    pub fn tick(&mut self, now: u64, vtty0: &mut Vtty, vtty1: &mut Vtty) -> (plan: Ns16552Plan)
        ensures
            final(self)@ == old(self)@.after_tick(old(vtty0)@, old(vtty1)@, now).chip,
            final(vtty0)@ == old(self)@.after_tick(old(vtty0)@, old(vtty1)@, now).console0,
            final(vtty1)@ == old(self)@.after_tick(old(vtty0)@, old(vtty1)@, now).console1,
            plan_of(plan.console0@) == old(self)@.after_tick(old(vtty0)@, old(vtty1)@, now).plan0,
            plan_of(plan.console1@) == old(self)@.after_tick(old(vtty0)@, old(vtty1)@, now).plan1,
            plan.irq == final(self)@.interrupt(),
    {
        let console0 = self.uart[0].tick(now, vtty0);
        let console1 = self.uart[1].tick(now, vtty1);
        let irq = self.shared_interrupt_control_logic(now);
        Ns16552Plan { irq, console0, console1 }
    }
    /// Read from a register.
    ///
    /// Gives nothing where `idx` names no register of the chip.
    pub fn read_access(&mut self, idx: usize, now: u64, vtty0: &mut Vtty, vtty1: &mut Vtty) -> (r: (
        Option<u8>,
        Ns16552Plan,
    ))
        ensures
            r.0 == (if idx / 8 < 2 {
                old(self)@.uart[(idx / 8) as int].after_tick(
                    if idx / 8 == 0 {
                        old(vtty0)@
                    } else {
                        old(vtty1)@
                    },
                    now,
                ).uart.read_value(idx % 8)
            } else {
                None
            }),
            final(self)@ == old(self)@.after_read(old(vtty0)@, old(vtty1)@, idx, now).chip,
            final(vtty0)@ == old(self)@.after_read(old(vtty0)@, old(vtty1)@, idx, now).console0,
            final(vtty1)@ == old(self)@.after_read(old(vtty0)@, old(vtty1)@, idx, now).console1,
            plan_of(r.1.console0@) == old(self)@.after_read(
                old(vtty0)@,
                old(vtty1)@,
                idx,
                now,
            ).plan0,
            plan_of(r.1.console1@) == old(self)@.after_read(
                old(vtty0)@,
                old(vtty1)@,
                idx,
                now,
            ).plan1,
            r.1.irq == (if idx / 8 < 2 {
                final(self)@.interrupt()
            } else {
                None
            }),
    {
        let channel = idx / 8;
        let idx = idx % 8;
        if channel >= 2 {
            return (None, Ns16552Plan { irq: None, console0: Vec::new(), console1: Vec::new() });
        }
        let mut console0: Vec<VttyAction> = Vec::new();
        let mut console1: Vec<VttyAction> = Vec::new();
        let ret;
        if channel == 0 {
            let (value, plan) = self.uart[0].access_read(idx, now, vtty0);
            ret = value;
            console0 = plan;
        } else {
            let (value, plan) = self.uart[1].access_read(idx, now, vtty1);
            ret = value;
            console1 = plan;
        }
        let irq = self.shared_interrupt_control_logic(now);
        (ret, Ns16552Plan { irq, console0, console1 })
    }

    /// Writes `value` to the register `idx` of both channels.
    fn write_both(
        &mut self,
        idx: usize,
        value: u8,
        now: u64,
        vtty0: &mut Vtty,
        vtty1: &mut Vtty,
    ) -> (r: (bool, Vec<VttyAction>, Vec<VttyAction>))
        ensures
            r.0 == UartView::writable(idx),
            final(self)@ == old(self)@.after_write_both(
                old(vtty0)@,
                old(vtty1)@,
                idx,
                value,
                now,
            ).chip,
            final(vtty0)@ == old(self)@.after_write_both(
                old(vtty0)@,
                old(vtty1)@,
                idx,
                value,
                now,
            ).console0,
            final(vtty1)@ == old(self)@.after_write_both(
                old(vtty0)@,
                old(vtty1)@,
                idx,
                value,
                now,
            ).console1,
            plan_of(r.1@) == old(self)@.after_write_both(
                old(vtty0)@,
                old(vtty1)@,
                idx,
                value,
                now,
            ).plan0,
            plan_of(r.2@) == old(self)@.after_write_both(
                old(vtty0)@,
                old(vtty1)@,
                idx,
                value,
                now,
            ).plan1,
    {
        let (done0, plan0) = self.uart[0].access_write(idx, value, now, vtty0);
        let (done1, plan1) = self.uart[1].access_write(idx, value, now, vtty1);
        (done0.is_some() && done1.is_some(), plan0, plan1)
    }

    /// Writes `value` to the register `idx` of the channel `channel`.
    fn write_one(
        &mut self,
        channel: usize,
        idx: usize,
        value: u8,
        now: u64,
        vtty0: &mut Vtty,
        vtty1: &mut Vtty,
    ) -> (r: (bool, Vec<VttyAction>, Vec<VttyAction>))
        requires
            channel < 2,
        ensures
            r.0 == UartView::writable(idx),
            final(self)@ == old(self)@.after_write_one(
                old(vtty0)@,
                old(vtty1)@,
                channel,
                idx,
                value,
                now,
            ).chip,
            final(vtty0)@ == old(self)@.after_write_one(
                old(vtty0)@,
                old(vtty1)@,
                channel,
                idx,
                value,
                now,
            ).console0,
            final(vtty1)@ == old(self)@.after_write_one(
                old(vtty0)@,
                old(vtty1)@,
                channel,
                idx,
                value,
                now,
            ).console1,
            plan_of(r.1@) == old(self)@.after_write_one(
                old(vtty0)@,
                old(vtty1)@,
                channel,
                idx,
                value,
                now,
            ).plan0,
            plan_of(r.2@) == old(self)@.after_write_one(
                old(vtty0)@,
                old(vtty1)@,
                channel,
                idx,
                value,
                now,
            ).plan1,
    {
        if channel == 0 {
            let (done, plan) = self.uart[0].access_write(idx, value, now, vtty0);
            (done.is_some(), plan, Vec::new())
        } else {
            let (done, plan) = self.uart[1].access_write(idx, value, now, vtty1);
            (done.is_some(), Vec::new(), plan)
        }
    }

    /// Sets the concurrent write bit of both channels as the channel
    /// `channel` has it.
    fn link(&mut self, channel: usize)
        requires
            channel < 2,
        ensures
            final(self)@ == old(self)@.linked(channel as int),
    {
        let cw = if channel == 0 {
            self.uart[0].afr & AlternateFunction::CW
        } else {
            self.uart[1].afr & AlternateFunction::CW
        };
        self.uart[0].afr = (self.uart[0].afr & !AlternateFunction::CW) | (cw
            & AlternateFunction::CW);
        self.uart[1].afr = (self.uart[1].afr & !AlternateFunction::CW) | (cw
            & AlternateFunction::CW);
        assert(self@.uart =~= old(self)@.linked(channel as int).uart);
    }

    /// Write to a register.
    ///
    /// Gives nothing where `idx` names no register of the chip that can be
    /// written.
    pub fn write_access(
        &mut self,
        idx: usize,
        value: u8,
        now: u64,
        vtty0: &mut Vtty,
        vtty1: &mut Vtty,
    ) -> (r: (Option<()>, Ns16552Plan))
        ensures
            r.0 is Some <==> idx / 8 < 2 && UartView::writable(idx % 8),
            final(self)@ == old(self)@.after_write(
                old(vtty0)@,
                old(vtty1)@,
                idx,
                value,
                now,
            ).chip,
            final(vtty0)@ == old(self)@.after_write(
                old(vtty0)@,
                old(vtty1)@,
                idx,
                value,
                now,
            ).console0,
            final(vtty1)@ == old(self)@.after_write(
                old(vtty0)@,
                old(vtty1)@,
                idx,
                value,
                now,
            ).console1,
            plan_of(r.1.console0@) == old(self)@.after_write(
                old(vtty0)@,
                old(vtty1)@,
                idx,
                value,
                now,
            ).plan0,
            plan_of(r.1.console1@) == old(self)@.after_write(
                old(vtty0)@,
                old(vtty1)@,
                idx,
                value,
                now,
            ).plan1,
            r.1.irq == (if idx / 8 < 2 {
                final(self)@.interrupt()
            } else {
                None
            }),
    {
        let channel = idx / 8;
        let idx = idx % 8;
        if channel >= 2 {
            return (None, Ns16552Plan { irq: None, console0: Vec::new(), console1: Vec::new() });
        }
        let (done, console0, console1) = if bit(self.uart[0].afr, AlternateFunction::CW) {
            // write to all channels at the same time
            self.write_both(idx, value, now, vtty0, vtty1)
        } else {
            // write to a single channel
            let wrote = self.write_one(channel, idx, value, now, vtty0, vtty1);
            if idx == Ns16552::IDX_FCR_AFR_W {
                // the concurrent write bits are linked
                self.link(channel);
            }
            wrote
        };
        let irq = self.shared_interrupt_control_logic(now);
        if done {
            (Some(()), Ns16552Plan { irq, console0, console1 })
        } else {
            (None, Ns16552Plan { irq, console0, console1 })
        }
    }
}

} // verus!
