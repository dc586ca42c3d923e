//! 10/100 Mbps PHY
//!
//! A model of the management registers of a dual-speed Ethernet
//! transceiver: what reading and writing a register over the MII does, and
//! how the registers follow the pins of the chip and the abilities of the
//! link partner. Latching bits keep their value until they are read.
//!
//! # MISSING
//! * timings
//! * errors (jabber, parallel detection, manual selection)
//! * some register fields

use vstd::prelude::*;

verus! {

/// Assume the link partner is a similar 10/100 Mbps PHY and ack.
pub const LXT907A_AN_LP_ABILITY_ASSUMED: u16 = 0b0100_0001_1110_0001;

/// Control Register (Address 0)
pub struct Control;

impl Control {
    /// 0.15 Reset (self clearing)
    pub const RESET: u16 = 0x8000;
    /// 0.13 Speed Selection, 1=100 Mbps, 0=10 Mbps
    pub const SPEED: u16 = 0x2000;
    /// 0.12 Auto Negotiation enable
    pub const AN_ENABLE: u16 = 0x1000;
    /// 0.11 Power Down
    pub const POWER_DOWN: u16 = 0x0800;
    /// 0.10 Electrically Isolate from MII
    pub const ISOLATE: u16 = 0x0400;
    /// 0.9 Restart Auto Negotiation (self clearing)
    pub const AN_RESTART: u16 = 0x0200;
    /// 0.8 Duplex Mode, 1=Full Duplex, 0=Half Duplex
    pub const DUPLEX: u16 = 0x0100;
}

/// Status Register (Address 1)
pub struct Status;

impl Status {
    /// 1.5 Auto Negotiation Complete
    pub const AN_COMPLETE: u16 = 0x0020;
    /// 1.4 Remote Fault in Link Partner (latching high)
    pub const REMOTE_FAULT: u16 = 0x0010;
    /// 1.2 Link Status, 1=Up, 0=Down (latching low)
    pub const LINK: u16 = 0x0004;
    /// 1.1 Jabber Detected (latching high)
    pub const JABBER_DETECTED: u16 = 0x0002;
}

/// Auto Negotiation Advertisement Register (Address 4) and Auto Negotiation
/// Link Partner Ability Register (Address 5)
pub struct AnAbility;

impl AnAbility {
    /// 13 Remote Fault
    pub const REMOTE_FAULT: u16 = 0x2000;
    /// 8 Allow 100BASE-TX Full-Duplex
    pub const ALLOW_100TX_FD: u16 = 0x0100;
    /// 7 Allow 100BASE-TX Half-Duplex
    pub const ALLOW_100TX_HD: u16 = 0x0080;
    /// 6 Allow 10BASE-T Full-Duplex
    pub const ALLOW_10T_FD: u16 = 0x0040;
    /// 5 Allow 10BASE-T Half-Duplex
    pub const ALLOW_10T_HD: u16 = 0x0020;
    /// 4:0 Selector Field
    pub const SF: u16 = 0x001f;
    /// Selector Field value of IEEE 802.3
    pub const SF_IEEE_802_3: u16 = 0x0001;
}

/// Auto Negotiation Expansion (Address 6)
pub struct AnExpansion;

impl AnExpansion {
    /// 6.4 Parallel Detection Fault (latching high)
    pub const PD_FAULT: u16 = 0x0010;
    /// 6.1 Page Received (latching high)
    pub const PAGE_RECEIVED: u16 = 0x0002;
}

/// Interrupt Status Register (Address 18)
pub struct IntStatus;

impl IntStatus {
    /// 18.15 MII Interrupt Pending (latching high, cleared by the read
    /// after a read of the status register)
    pub const MII_INT: u16 = 0x8000;
    /// 18.14 XTAL OK, 1=Stable
    pub const XTAL: u16 = 0x4000;
}

/// Configuration Register (Address 19)
pub struct Config;

impl Config {
    /// 19.13 Mode, 1=Repeater, 0=Normal
    pub const MODE: u16 = 0x2000;
    /// 19.8 Link Test (10BASE-T), 1=Disable, 0=Enable
    pub const LINK_TEST: u16 = 0x0100;
    /// 19.4 1=5B Symbol, 0=4B Nibble
    pub const CODER: u16 = 0x0010;
    /// 19.3 Bypass Scrambler
    pub const SCRAMBLER: u16 = 0x0008;
    /// 19.2 100BASE-FX, 1=Fiber, 0=Twisted Pair
    pub const CABLE_100FX: u16 = 0x0004;
}

/// Chip Status Register (Address 20)
pub struct ChipStatus;

impl ChipStatus {
    /// 20.13 Link, 1=Up, 0=Down
    pub const LINK: u16 = 0x2000;
    /// 20.12 Duplex Mode, 1=Full Duplex, 0=Half Duplex
    pub const DUPLEX: u16 = 0x1000;
    /// 20.11 Speed, 1=100 Mbps, 0=10 Mbps
    pub const SPEED: u16 = 0x0800;
    /// 20.9 Auto Negotiation Complete (latching high)
    pub const AN_COMPLETE: u16 = 0x0200;
    /// 20.8 Page Received (latching high)
    pub const PAGE_RECEIVED: u16 = 0x0100;
}

/// Whether every bit of `mask` is set in `reg`.
pub open spec fn is_set(reg: u16, mask: u16) -> bool {
    reg & mask == mask
}

/// `reg` with the bits of `mask` set where `on` holds, cleared where not.
pub open spec fn with(reg: u16, mask: u16, on: bool) -> u16 {
    if on {
        reg | mask
    } else {
        reg & !mask
    }
}

/// `reg` with the bits of `rw_mask` taken from `value`.
pub open spec fn written(reg: u16, rw_mask: u16, value: u16) -> u16 {
    (reg & !rw_mask) | (value & rw_mask)
}

/// Whether every bit of `mask` is set in `reg`.
fn bit(reg: u16, mask: u16) -> (b: bool)
    ensures
        b == is_set(reg, mask),
{
    reg & mask == mask
}

/// `reg` with the bits of `mask` set where `on` holds, cleared where not.
fn put(reg: u16, mask: u16, on: bool) -> (r: u16)
    ensures
        r == with(reg, mask, on),
{
    if on {
        reg | mask
    } else {
        reg & !mask
    }
}

/// Pins that affect the chip.
#[derive(Debug, Copy, Clone, PartialEq, Eq, Structural)]
pub struct Pins {
    pub mf0: bool,
    pub mf1: bool,
    pub mf2: bool,
    pub mf3: bool,
    pub mf4: bool,
    pub cfg0: bool,
    pub cfg1: bool,
    pub fde: bool,
    pub trste: bool,
}

impl Pins {
    /// The pins of a chip that negotiates on its own, with every speed and
    /// full duplex allowed.
    pub open spec fn defaults() -> Pins {
        Pins {
            mf0: true,
            mf1: false,
            mf2: true,
            mf3: true,
            mf4: true,
            cfg0: true,
            cfg1: true,
            fde: true,
            trste: false,
        }
    }

    pub fn new() -> (pins: Self)
        ensures
            pins == Pins::defaults(),
    {
        Self::default()
    }
}

impl Default for Pins {
    fn default() -> (pins: Self)
        ensures
            pins == Pins::defaults(),
    {
        Self {
            mf0: true,  // Auto Negotiate
            mf1: false,  // DTE Mode
            mf2: true,  // 5B Symbol
            mf3: true,  // Bypass Scrambler
            mf4: true,  // 100 Mbps Capability
            cfg0: true,  // Auto Negotiate Restart
            cfg1: true,  // 10 Mbps Capability
            fde: true,  // Full Duplex
            trste: false,  // Do Not Isolate
        }
    }
}

/// In-memory registers.
#[derive(Debug, Copy, Clone, PartialEq, Eq, Structural)]
pub struct Regs {
    pub control: u16,
    pub status: u16,
    pub id1: u16,
    pub id2: u16,
    pub an_advertise: u16,
    pub an_lp_ability: u16,
    pub an_expansion: u16,
    pub mirror: u16,
    pub int_enable: u16,
    pub int_status: u16,
    pub config: u16,
    pub chip_status: u16,
}

impl Regs {
    pub const IDX_CONTROL: usize = 0;
    pub const IDX_STATUS: usize = 1;
    pub const IDX_ID1: usize = 2;
    pub const IDX_ID2: usize = 3;
    pub const IDX_AN_ADVERTISE: usize = 4;
    pub const IDX_AN_LP_ABILITY: usize = 5;
    pub const IDX_AN_EXPANSION: usize = 6;
    pub const IDX_MIRROR: usize = 16;
    pub const IDX_INT_ENABLE: usize = 17;
    pub const IDX_INT_STATUS: usize = 18;
    pub const IDX_CONFIG: usize = 19;
    pub const IDX_CHIP_STATUS: usize = 20;
    pub const RW_CONTROL: u16 = 0b1111_1111_1000_0011;
    pub const RW_AN_ADVERTISE: u16 = 0b0011_1111_1111_1111;
    pub const RW_MIRROR: u16 = 0b1111_1111_1111_1111;
    pub const RW_INT_ENABLE: u16 = 0b0000_0000_0000_1111;
    pub const RW_CONFIG: u16 = 0b1111_1111_1111_1111;

    /// The registers of a chip out of reset, before its pins are looked at.
    pub open spec fn defaults() -> Regs {
        Regs {
            control: 0,
            status: 0b0111_1000_0000_1001,
            id1: 0x7810,
            id2: 0b000000_000000_0001,
            an_advertise: 0b00_0_00_000000_00001,
            an_lp_ability: 0,
            an_expansion: 0,
            mirror: 0,
            int_enable: 0,
            int_status: 0,
            config: 0,
            chip_status: 0,
        }
    }

    /// The control register that the pins ask for.
    pub open spec fn control_of(pins: Pins) -> u16 {
        let negotiated = if pins.mf0 {
            with(with(0, Control::AN_ENABLE, true), Control::AN_RESTART, pins.cfg0)
        } else {
            with(with(0, Control::SPEED, pins.cfg0), Control::DUPLEX, pins.fde)
        };
        with(negotiated, Control::ISOLATE, pins.trste)
    }

    /// The abilities that the pins allow to advertise.
    pub open spec fn an_advertise_of(pins: Pins) -> u16 {
        let fast = with(
            with(Regs::defaults().an_advertise, AnAbility::ALLOW_100TX_HD, pins.mf4),
            AnAbility::ALLOW_100TX_FD,
            pins.mf4 && pins.fde,
        );
        with(
            with(fast, AnAbility::ALLOW_10T_HD, pins.cfg1),
            AnAbility::ALLOW_10T_FD,
            pins.cfg1 && pins.fde,
        )
    }

    /// The configuration register that the pins ask for.
    pub open spec fn config_of(pins: Pins) -> u16 {
        let manual = with(
            with(0, Config::LINK_TEST, !pins.mf0 && pins.cfg1),
            Config::CABLE_100FX,
            !pins.mf0 && pins.mf4,
        );
        with(
            with(with(manual, Config::MODE, pins.mf1), Config::CODER, pins.mf2),
            Config::SCRAMBLER,
            pins.mf3,
        )
    }

    /// The registers of a chip out of reset with the pins `pins`.
    pub open spec fn with_pins(pins: Pins) -> Regs {
        Regs {
            control: Regs::control_of(pins),
            an_advertise: Regs::an_advertise_of(pins),
            config: Regs::config_of(pins),
            ..Regs::defaults()
        }
    }

    /// Create registers with default values.
    pub fn new() -> (regs: Regs)
        ensures
            regs == Regs::defaults(),
    {
        Regs::default()
    }

    /// Create registers with values based on the pins.
    pub fn new_with_pins(pins: Pins) -> (regs: Regs)
        ensures
            regs == Regs::with_pins(pins),
    {
        let mut regs = Regs::default();
        regs.control =
        {
            let mut reg: u16 = 0;
            if pins.mf0 {
                reg = put(reg, Control::AN_ENABLE, true);
                reg = put(reg, Control::AN_RESTART, pins.cfg0);
            } else {
                reg = put(reg, Control::SPEED, pins.cfg0);
                reg = put(reg, Control::DUPLEX, pins.fde);
            }
            put(reg, Control::ISOLATE, pins.trste)
        };
        regs.an_advertise =
        {
            let mut reg: u16 = regs.an_advertise;
            reg = put(reg, AnAbility::ALLOW_100TX_HD, pins.mf4);
            reg = put(reg, AnAbility::ALLOW_100TX_FD, pins.mf4 && pins.fde);
            reg = put(reg, AnAbility::ALLOW_10T_HD, pins.cfg1);
            put(reg, AnAbility::ALLOW_10T_FD, pins.cfg1 && pins.fde)
        };
        regs.config =
        {
            let mut reg: u16 = 0;
            reg = put(reg, Config::LINK_TEST, !pins.mf0 && pins.cfg1);
            reg = put(reg, Config::CABLE_100FX, !pins.mf0 && pins.mf4);
            reg = put(reg, Config::MODE, pins.mf1);
            reg = put(reg, Config::CODER, pins.mf2);
            put(reg, Config::SCRAMBLER, pins.mf3)
        };
        regs
    }

    /// The registers after a reset where the control register asks for one.
    pub open spec fn after_reset(self, pins: Pins) -> Regs {
        if is_set(self.control, Control::RESET) {
            Regs::with_pins(pins)
        } else {
            self
        }
    }

    /// The registers after auto negotiation was restarted where the control
    /// register asks for it: negotiation is not complete, the link is down
    /// and the request is cleared.
    pub open spec fn after_restart(self) -> Regs {
        if is_set(self.control, Control::AN_RESTART) {
            Regs {
                status: with(self.status, Status::AN_COMPLETE, false),
                chip_status: with(self.chip_status, ChipStatus::LINK, false),
                control: with(self.control, Control::AN_RESTART, false),
                ..self
            }
        } else {
            self
        }
    }

    /// Whether negotiation with a partner of the abilities `partner` fails:
    /// the partner reports a fault, speaks another protocol, or shares no
    /// mode with what this chip advertises.
    pub open spec fn negotiation_fails(self, partner: u16) -> bool {
        let overlap = self.an_advertise & partner;
        ||| is_set(partner, AnAbility::REMOTE_FAULT)
        ||| partner & AnAbility::SF != AnAbility::SF_IEEE_802_3
        ||| !(is_set(overlap, AnAbility::ALLOW_100TX_FD) || is_set(
            overlap,
            AnAbility::ALLOW_100TX_HD,
        ) || is_set(overlap, AnAbility::ALLOW_10T_FD) || is_set(overlap, AnAbility::ALLOW_10T_HD))
    }

    /// The chip status after negotiating the best mode shared with a partner
    /// of the abilities `partner`: 100 Mbps before 10 Mbps, full duplex
    /// before half duplex.
    pub open spec fn negotiated_mode(self, partner: u16) -> u16 {
        let overlap = self.an_advertise & partner;
        if is_set(overlap, AnAbility::ALLOW_100TX_FD) {
            with(with(self.chip_status, ChipStatus::SPEED, true), ChipStatus::DUPLEX, true)
        } else if is_set(overlap, AnAbility::ALLOW_100TX_HD) {
            with(with(self.chip_status, ChipStatus::SPEED, true), ChipStatus::DUPLEX, false)
        } else if is_set(overlap, AnAbility::ALLOW_10T_FD) {
            with(with(self.chip_status, ChipStatus::SPEED, false), ChipStatus::DUPLEX, true)
        } else if is_set(overlap, AnAbility::ALLOW_10T_HD) {
            with(with(self.chip_status, ChipStatus::SPEED, false), ChipStatus::DUPLEX, false)
        } else {
            self.chip_status
        }
    }

    /// The registers after auto negotiation with a partner of the abilities
    /// `partner`, which takes place while the link is down.
    pub open spec fn after_negotiation(self, partner: u16) -> Regs {
        if is_set(self.chip_status, ChipStatus::LINK) {
            self
        } else {
            let seen = Regs {
                an_lp_ability: partner,
                an_expansion: with(self.an_expansion, AnExpansion::PAGE_RECEIVED, true),
                chip_status: with(self.chip_status, ChipStatus::PAGE_RECEIVED, true),
                ..self
            };
            if seen.negotiation_fails(partner) {
                Regs { status: with(seen.status, Status::REMOTE_FAULT, true), ..seen }
            } else {
                Regs {
                    status: with(seen.status, Status::AN_COMPLETE, true),
                    chip_status: with(seen.negotiated_mode(partner), ChipStatus::LINK, true),
                    ..seen
                }
            }
        }
    }

    /// The chip status after the mode was selected by hand against a
    /// partner of the abilities `partner`: the speed and duplex of the
    /// control register as far as the partner allows them.
    pub open spec fn selected_mode(self, partner: u16) -> u16 {
        let fast_fd = is_set(partner, AnAbility::ALLOW_100TX_FD);
        let fast_hd = is_set(partner, AnAbility::ALLOW_100TX_HD);
        if (fast_fd || fast_hd) && is_set(self.control, Control::SPEED) {
            with(
                with(self.chip_status, ChipStatus::SPEED, true),
                ChipStatus::DUPLEX,
                fast_fd && is_set(self.control, Control::DUPLEX),
            )
        } else {
            let slow = with(self.chip_status, ChipStatus::SPEED, false);
            if is_set(partner, AnAbility::ALLOW_10T_FD) && is_set(self.control, Control::DUPLEX) {
                with(slow, ChipStatus::DUPLEX, true)
            } else if is_set(partner, AnAbility::ALLOW_10T_HD) {
                with(slow, ChipStatus::DUPLEX, false)
            } else {
                slow
            }
        }
    }

    /// The registers after the latching bits followed the state of the chip:
    /// a link that is down latches the link status low, a completed
    /// negotiation latches in the chip status, and the crystal is stable.
    pub open spec fn after_latches(self) -> Regs {
        let status = if is_set(self.chip_status, ChipStatus::LINK) {
            self.status
        } else {
            with(self.status, Status::LINK, false)
        };
        Regs {
            status,
            chip_status: if is_set(status, Status::AN_COMPLETE) {
                with(self.chip_status, ChipStatus::AN_COMPLETE, true)
            } else {
                self.chip_status
            },
            int_status: with(self.int_status, IntStatus::XTAL, true),
            ..self
        }
    }

    /// The registers after they followed the pins `pins` and the link
    /// partner `link_partner`.
    pub open spec fn updated(self, pins: Pins, link_partner: Option<u16>) -> Regs {
        let reset = self.after_reset(pins);
        let linked = if is_set(reset.control, Control::AN_ENABLE) {
            match link_partner {
                Some(partner) => reset.after_restart().after_negotiation(partner),
                None => reset.after_restart(),
            }
        } else {
            match link_partner {
                Some(partner) => Regs { chip_status: reset.selected_mode(partner), ..reset },
                None => reset,
            }
        };
        linked.after_latches()
    }

    /// The value that a read of the register `idx` gives.
    pub open spec fn read(self, idx: usize) -> u16 {
        if idx == Regs::IDX_CONTROL {
            self.control
        } else if idx == Regs::IDX_STATUS {
            self.status
        } else if idx == Regs::IDX_ID1 {
            self.id1
        } else if idx == Regs::IDX_ID2 {
            self.id2
        } else if idx == Regs::IDX_AN_ADVERTISE {
            self.an_advertise
        } else if idx == Regs::IDX_AN_LP_ABILITY {
            self.an_lp_ability
        } else if idx == Regs::IDX_AN_EXPANSION {
            self.an_expansion
        } else if idx == Regs::IDX_MIRROR {
            self.mirror
        } else if idx == Regs::IDX_INT_ENABLE {
            self.int_enable
        } else if idx == Regs::IDX_INT_STATUS {
            self.int_status
        } else if idx == Regs::IDX_CONFIG {
            self.config
        } else if idx == Regs::IDX_CHIP_STATUS {
            self.chip_status
        } else {
            0
        }
    }

    /// The registers after the register `idx` was read: its latching bits
    /// return to their resting value. The pending interrupt is cleared by
    /// the read that follows a read of the status register.
    pub open spec fn after_read(self, idx: usize, last_read_was_status: bool) -> Regs {
        if idx == Regs::IDX_STATUS {
            Regs {
                status: with(
                    with(with(self.status, Status::REMOTE_FAULT, false), Status::LINK, true),
                    Status::JABBER_DETECTED,
                    false,
                ),
                ..self
            }
        } else if idx == Regs::IDX_AN_EXPANSION {
            Regs {
                an_expansion: with(
                    with(self.an_expansion, AnExpansion::PD_FAULT, false),
                    AnExpansion::PAGE_RECEIVED,
                    false,
                ),
                ..self
            }
        } else if idx == Regs::IDX_INT_STATUS && last_read_was_status {
            Regs { int_status: with(self.int_status, IntStatus::MII_INT, false), ..self }
        } else if idx == Regs::IDX_CHIP_STATUS {
            Regs {
                chip_status: with(
                    with(self.chip_status, ChipStatus::AN_COMPLETE, false),
                    ChipStatus::PAGE_RECEIVED,
                    false,
                ),
                ..self
            }
        } else {
            self
        }
    }

    /// The registers after `value` was written to the register `idx`: the
    /// writable bits of a writable register take the bits of `value`.
    pub open spec fn after_write(self, idx: usize, value: u16) -> Regs {
        if idx == Regs::IDX_CONTROL {
            Regs { control: written(self.control, Regs::RW_CONTROL, value), ..self }
        } else if idx == Regs::IDX_AN_ADVERTISE {
            Regs { an_advertise: written(self.an_advertise, Regs::RW_AN_ADVERTISE, value), ..self }
        } else if idx == Regs::IDX_MIRROR {
            Regs { mirror: written(self.mirror, Regs::RW_MIRROR, value), ..self }
        } else if idx == Regs::IDX_INT_ENABLE {
            Regs { int_enable: written(self.int_enable, Regs::RW_INT_ENABLE, value), ..self }
        } else if idx == Regs::IDX_CONFIG {
            Regs { config: written(self.config, Regs::RW_CONFIG, value), ..self }
        } else {
            self
        }
    }

    /// Restarts auto negotiation where the control register asks for it.
    fn restart(self) -> (regs: Regs)
        ensures
            regs == self.after_restart(),
    {
        let mut regs = self;
        if bit(regs.control, Control::AN_RESTART) {
            regs.status = put(regs.status, Status::AN_COMPLETE, false);
            regs.chip_status = put(regs.chip_status, ChipStatus::LINK, false);
            regs.control = put(regs.control, Control::AN_RESTART, false);  // SC
        }
        regs
    }

    /// The chip status with the best mode shared with the partner.
    fn best_mode(self, partner: u16) -> (chip_status: u16)
        ensures
            chip_status == self.negotiated_mode(partner),
    {
        let overlap = self.an_advertise & partner;
        if bit(overlap, AnAbility::ALLOW_100TX_FD) {
            put(put(self.chip_status, ChipStatus::SPEED, true), ChipStatus::DUPLEX, true)
        } else if bit(overlap, AnAbility::ALLOW_100TX_HD) {
            put(put(self.chip_status, ChipStatus::SPEED, true), ChipStatus::DUPLEX, false)
        } else if bit(overlap, AnAbility::ALLOW_10T_FD) {
            put(put(self.chip_status, ChipStatus::SPEED, false), ChipStatus::DUPLEX, true)
        } else if bit(overlap, AnAbility::ALLOW_10T_HD) {
            put(put(self.chip_status, ChipStatus::SPEED, false), ChipStatus::DUPLEX, false)
        } else {
            self.chip_status
        }
    }

    /// Whether negotiation with the partner fails.
    fn fails(self, partner: u16) -> (fault: bool)
        ensures
            fault == self.negotiation_fails(partner),
    {
        let overlap = self.an_advertise & partner;
        bit(partner, AnAbility::REMOTE_FAULT) || partner & AnAbility::SF
            != AnAbility::SF_IEEE_802_3 || !(bit(overlap, AnAbility::ALLOW_100TX_FD) || bit(
            overlap,
            AnAbility::ALLOW_100TX_HD,
        ) || bit(overlap, AnAbility::ALLOW_10T_FD) || bit(overlap, AnAbility::ALLOW_10T_HD))
    }

    /// Does auto negotiation with the partner while the link is down.
    fn negotiate(self, partner: u16) -> (regs: Regs)
        ensures
            regs == self.after_negotiation(partner),
    {
        let mut regs = self;
        if !bit(regs.chip_status, ChipStatus::LINK) {
            regs.an_lp_ability = partner;
            regs.an_expansion = put(regs.an_expansion, AnExpansion::PAGE_RECEIVED, true);  // LH
            regs.chip_status = put(regs.chip_status, ChipStatus::PAGE_RECEIVED, true);  // LH
            if regs.fails(partner) {
                regs.status = put(regs.status, Status::REMOTE_FAULT, true);  // LH
            } else {
                // auto negotiation complete
                regs.status = put(regs.status, Status::AN_COMPLETE, true);
                regs.chip_status = put(regs.best_mode(partner), ChipStatus::LINK, true);
            }
        }
        regs
    }

    /// The chip status with the mode selected by hand.
    fn select(self, partner: u16) -> (chip_status: u16)
        ensures
            chip_status == self.selected_mode(partner),
    {
        let fast_fd = bit(partner, AnAbility::ALLOW_100TX_FD);
        let fast_hd = bit(partner, AnAbility::ALLOW_100TX_HD);
        if (fast_fd || fast_hd) && bit(self.control, Control::SPEED) {
            put(
                put(self.chip_status, ChipStatus::SPEED, true),
                ChipStatus::DUPLEX,
                fast_fd && bit(self.control, Control::DUPLEX),
            )
        } else {
            let slow = put(self.chip_status, ChipStatus::SPEED, false);
            if bit(partner, AnAbility::ALLOW_10T_FD) && bit(self.control, Control::DUPLEX) {
                put(slow, ChipStatus::DUPLEX, true)
            } else if bit(partner, AnAbility::ALLOW_10T_HD) {
                put(slow, ChipStatus::DUPLEX, false)
            } else {
                slow
            }
        }
    }

    /// Lets the latching bits follow the state of the chip.
    fn latch(self) -> (regs: Regs)
        ensures
            regs == self.after_latches(),
    {
        let mut regs = self;
        if !bit(regs.chip_status, ChipStatus::LINK) {
            regs.status = put(regs.status, Status::LINK, false);  // LL
        }
        if bit(regs.status, Status::AN_COMPLETE) {
            regs.chip_status = put(regs.chip_status, ChipStatus::AN_COMPLETE, true);  // LH
        }
        // chip is powered up and stable
        regs.int_status = put(regs.int_status, IntStatus::XTAL, true);
        regs
    }
}

impl Default for Regs {
    fn default() -> (regs: Regs)
        ensures
            regs == Regs::defaults(),
    {
        Regs {
            control: 0,
            status: 0b0111_1000_0000_1001,
            id1: 0x7810,
            id2: 0b000000_000000_0001,
            an_advertise: 0b00_0_00_000000_00001,
            an_lp_ability: 0,
            an_expansion: 0,
            mirror: 0,
            int_enable: 0,
            int_status: 0,
            config: 0,
            chip_status: 0,
        }
    }
}

/// 10/100 Mbps PHY
#[derive(Debug, Copy, Clone, PartialEq, Eq, Structural)]
pub struct Lxt970A {
    pub regs: Regs,
    pub pins: Pins,
    pub last_read_was_status: bool,
    pub link_partner: Option<u16>,
}

impl Default for Lxt970A {
    fn default() -> (phy: Self)
        ensures
            phy == Lxt970A::with_pins(Pins::defaults()),
    {
        Self::new_with_pins(Pins::default())
    }
}

impl Lxt970A {
    /// A chip out of reset with the pins `pins` and no link partner.
    pub open spec fn with_pins(pins: Pins) -> Lxt970A {
        Lxt970A {
            regs: Regs::with_pins(pins),
            pins,
            last_read_was_status: false,
            link_partner: None,
        }
    }

    /// The chip after its registers followed its pins and its link partner.
    pub open spec fn updated(self) -> Lxt970A {
        Lxt970A { regs: self.regs.updated(self.pins, self.link_partner), ..self }
    }

    /// Whether the chip is powered and its link is up.
    pub open spec fn spec_link_is_up(&self) -> bool {
        !is_set(self.regs.control, Control::POWER_DOWN) && is_set(
            self.regs.chip_status,
            ChipStatus::LINK,
        )
    }

    /// Whether the chip is isolated from the MII and answers no access.
    pub open spec fn isolated(self) -> bool {
        is_set(self.regs.control, Control::ISOLATE)
    }

    /// Creates a new PHY with default values.
    pub fn new() -> (phy: Self)
        ensures
            phy == Lxt970A::with_pins(Pins::defaults()),
    {
        Self::default()
    }

    /// Creates a new PHY with values based on the pins.
    pub fn new_with_pins(pins: Pins) -> (phy: Self)
        ensures
            phy == Lxt970A::with_pins(pins),
    {
        Self {
            regs: Regs::new_with_pins(pins),
            pins,
            last_read_was_status: false,
            link_partner: None,
        }
    }

    /// Set Link Partner (with an_lp_ability)
    pub fn set_link_partner(&mut self, link_partner: Option<u16>)
        ensures
            *final(self) == (Lxt970A { link_partner, ..*old(self) }).updated(),
    {
        self.link_partner = link_partner;
        self.update_regs();
    }

    /// Link status
    #[verifier::when_used_as_spec(spec_link_is_up)]
    pub fn link_is_up(&self) -> (up: bool)
        ensures
            up == self.spec_link_is_up(),
    {
        !bit(self.regs.control, Control::POWER_DOWN) && bit(
            self.regs.chip_status,
            ChipStatus::LINK,
        )
    }

    /// Update registers
    pub fn update_regs(&mut self)
        ensures
            *final(self) == old(self).updated(),
    {
        let mut regs = self.regs;
        if bit(regs.control, Control::RESET) {
            // reset
            regs = Regs::new_with_pins(self.pins);  // SC
        }
        if bit(regs.control, Control::AN_ENABLE) {
            regs = regs.restart();
            if let Some(partner) = self.link_partner {
                regs = regs.negotiate(partner);
            }
        } else if let Some(partner) = self.link_partner {
            regs.chip_status = regs.select(partner);
        }
        self.regs = regs.latch();
    }

    /// Set register defaults.
    pub fn set_defaults(&mut self)
        ensures
            *final(self) == (Lxt970A {
                regs: Regs::with_pins(old(self).pins),
                ..*old(self)
            }).updated(),
    {
        self.regs = Regs::new_with_pins(self.pins);
        self.update_regs();
    }

    /// MII register read access
    ///
    /// An isolated chip gives nothing and stays as it is. Any other gives
    /// the value of the register, 0 for a register that it does not have;
    /// the latching bits of the register return to rest and the registers
    /// are updated.
    pub fn mii_read_access(&mut self, idx: usize) -> (value: Option<u16>)
        ensures
            old(self).isolated() ==> value is None && *final(self) == *old(self),
            !old(self).isolated() ==> value == Some(old(self).regs.read(idx)) && *final(self) == (
            Lxt970A {
                regs: old(self).regs.after_read(idx, old(self).last_read_was_status),
                last_read_was_status: idx == Regs::IDX_STATUS,
                ..*old(self)
            }).updated(),
    {
        if bit(self.regs.control, Control::ISOLATE) {
            return None;
        }
        let value = if idx == Regs::IDX_CONTROL {
            self.regs.control
        } else if idx == Regs::IDX_STATUS {
            self.regs.status
        } else if idx == Regs::IDX_ID1 {
            self.regs.id1
        } else if idx == Regs::IDX_ID2 {
            self.regs.id2
        } else if idx == Regs::IDX_AN_ADVERTISE {
            self.regs.an_advertise
        } else if idx == Regs::IDX_AN_LP_ABILITY {
            self.regs.an_lp_ability
        } else if idx == Regs::IDX_AN_EXPANSION {
            self.regs.an_expansion
        } else if idx == Regs::IDX_MIRROR {
            self.regs.mirror
        } else if idx == Regs::IDX_INT_ENABLE {
            self.regs.int_enable
        } else if idx == Regs::IDX_INT_STATUS {
            self.regs.int_status
        } else if idx == Regs::IDX_CONFIG {
            self.regs.config
        } else if idx == Regs::IDX_CHIP_STATUS {
            self.regs.chip_status
        } else {
            0
        };
        if idx == Regs::IDX_STATUS {
            let mut reg = self.regs.status;
            reg = put(reg, Status::REMOTE_FAULT, false);  // LH
            reg = put(reg, Status::LINK, true);  // LL
            reg = put(reg, Status::JABBER_DETECTED, false);  // LH
            self.regs.status = reg;
        } else if idx == Regs::IDX_AN_EXPANSION {
            let mut reg = self.regs.an_expansion;
            reg = put(reg, AnExpansion::PD_FAULT, false);  // LH
            reg = put(reg, AnExpansion::PAGE_RECEIVED, false);  // LH
            self.regs.an_expansion = reg;
        } else if idx == Regs::IDX_INT_STATUS {
            if self.last_read_was_status {
                // LH+1
                self.regs.int_status = put(self.regs.int_status, IntStatus::MII_INT, false);
            }
        } else if idx == Regs::IDX_CHIP_STATUS {
            let mut reg = self.regs.chip_status;
            reg = put(reg, ChipStatus::AN_COMPLETE, false);  // LH
            reg = put(reg, ChipStatus::PAGE_RECEIVED, false);  // LH
            self.regs.chip_status = reg;
        }
        self.last_read_was_status = idx == Regs::IDX_STATUS;
        self.update_regs();
        Some(value)
    }

    /// MII register write access
    ///
    /// An isolated chip takes nothing and stays as it is. Any other takes
    /// the writable bits of a writable register from `value`, and the
    /// registers are updated.
    pub fn mii_write_access(&mut self, idx: usize, value: u16) -> (done: Option<()>)
        ensures
            old(self).isolated() ==> done is None && *final(self) == *old(self),
            !old(self).isolated() ==> done is Some && *final(self) == (Lxt970A {
                regs: old(self).regs.after_write(idx, value),
                ..*old(self)
            }).updated(),
    {
        if bit(self.regs.control, Control::ISOLATE) {
            return None;
        }
        if idx == Regs::IDX_CONTROL {
            self.regs.control = (self.regs.control & !Regs::RW_CONTROL) | (value
                & Regs::RW_CONTROL);
        } else if idx == Regs::IDX_AN_ADVERTISE {
            self.regs.an_advertise = (self.regs.an_advertise & !Regs::RW_AN_ADVERTISE) | (value
                & Regs::RW_AN_ADVERTISE);
        } else if idx == Regs::IDX_MIRROR {
            self.regs.mirror = (self.regs.mirror & !Regs::RW_MIRROR) | (value & Regs::RW_MIRROR);
        } else if idx == Regs::IDX_INT_ENABLE {
            self.regs.int_enable = (self.regs.int_enable & !Regs::RW_INT_ENABLE) | (value
                & Regs::RW_INT_ENABLE);
        } else if idx == Regs::IDX_CONFIG {
            self.regs.config = (self.regs.config & !Regs::RW_CONFIG) | (value & Regs::RW_CONFIG);
        }
        self.update_regs();
        Some(())
    }
}

} // verus!
