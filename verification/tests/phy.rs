use dynamips::phy::lxt970a::Lxt970A;
use dynamips::phy::lxt970a::Pins;
use dynamips::phy::lxt970a::Regs;
use dynamips::phy::lxt970a::LXT907A_AN_LP_ABILITY_ASSUMED;

fn linked_phy() -> Lxt970A {
    let mut phy = Lxt970A::new();
    phy.update_regs();
    phy.set_link_partner(Some(LXT907A_AN_LP_ABILITY_ASSUMED));
    phy
}

#[test]
fn default_pins_negotiate_everything() {
    let pins = Pins::new();
    assert_eq!(
        pins,
        Pins { mf0: true, mf1: false, mf2: true, mf3: true, mf4: true, cfg0: true, cfg1: true, fde: true, trste: false }
    );
    assert_eq!(Pins::default(), pins);
}

#[test]
fn registers_start_with_their_defaults() {
    let regs = Regs::new();
    assert_eq!(regs, Regs::default());
    assert_eq!(
        regs,
        Regs {
            control: 0,
            status: 0x7809,
            id1: 0x7810,
            id2: 0x0001,
            an_advertise: 0x0001,
            an_lp_ability: 0,
            an_expansion: 0,
            mirror: 0,
            int_enable: 0,
            int_status: 0,
            config: 0,
            chip_status: 0,
        }
    );
}

#[test]
fn registers_follow_the_pins() {
    let regs = Regs::new_with_pins(Pins::default());
    assert_eq!(regs.control, 0x1200);
    assert_eq!(regs.an_advertise, 0x01e1);
    assert_eq!(regs.config, 0x0018);
    assert_eq!(Regs { control: 0, an_advertise: 1, config: 0, ..regs }, Regs::default());

    let manual = Pins { mf0: false, mf1: true, mf2: false, mf3: false, mf4: true, cfg0: true, cfg1: true, fde: false, trste: true };
    let regs = Regs::new_with_pins(manual);
    assert_eq!(regs.control, 0x2400);
    assert_eq!(regs.an_advertise, 0x00a1);
    assert_eq!(regs.config, 0x2104);

    let slow = Pins { mf0: false, mf1: false, mf2: false, mf3: false, mf4: false, cfg0: false, cfg1: false, fde: true, trste: false };
    let regs = Regs::new_with_pins(slow);
    assert_eq!(regs.control, 0x0100);
    assert_eq!(regs.an_advertise, 0x0001);
    assert_eq!(regs.config, 0x0000);
}

#[test]
fn new_phy_has_no_link() {
    let mut phy = Lxt970A::new();
    assert_eq!(phy, Lxt970A::default());
    assert_eq!(phy, Lxt970A::new_with_pins(Pins::default()));
    assert_eq!(phy.link_partner, None);
    assert!(!phy.last_read_was_status);
    assert!(!phy.link_is_up());
    phy.update_regs();
    assert_eq!(phy.regs.control, 0x1000);
    assert_eq!(phy.regs.status, 0x7809);
    assert_eq!(phy.regs.chip_status, 0x0000);
    assert_eq!(phy.regs.int_status, 0x4000);
    assert!(!phy.link_is_up());
}

#[test]
fn negotiation_with_a_similar_partner_brings_the_link_up() {
    let phy = linked_phy();
    assert_eq!(phy.link_partner, Some(0x41e1));
    assert_eq!(phy.regs.an_lp_ability, 0x41e1);
    assert_eq!(phy.regs.an_expansion, 0x0002);
    assert_eq!(phy.regs.status, 0x7829);
    assert_eq!(phy.regs.chip_status, 0x3b00);
    assert!(phy.link_is_up());
}

#[test]
fn best_common_mode_is_negotiated() {
    for (partner, chip_status) in [(0x0101u16, 0x3b00u16), (0x0081, 0x2b00), (0x0041, 0x3300), (0x0021, 0x2300), (0x00e1, 0x2b00)] {
        let mut phy = Lxt970A::new();
        phy.set_link_partner(Some(partner));
        assert_eq!(phy.regs.chip_status, chip_status);
        assert!(phy.link_is_up());
    }
}

#[test]
fn partner_without_common_mode_is_a_remote_fault() {
    for partner in [0x0001u16, 0x2101, 0x0102, 0x0100, 0x0000] {
        let mut phy = Lxt970A::new();
        phy.set_link_partner(Some(partner));
        assert_eq!(phy.regs.an_lp_ability, partner);
        assert_eq!(phy.regs.status, 0x7819);
        assert_eq!(phy.regs.chip_status, 0x0100);
        assert!(!phy.link_is_up());
    }
}

#[test]
fn manual_selection_follows_the_control_register() {
    let manual = Pins { mf0: false, ..Pins::default() };
    let mut phy = Lxt970A::new_with_pins(manual);
    assert_eq!(phy.regs.control, 0x2100);
    phy.set_link_partner(Some(0x01e1));
    assert_eq!(phy.regs.chip_status, 0x1800);
    phy.set_link_partner(Some(0x00e1));
    assert_eq!(phy.regs.chip_status, 0x0800);
    phy.set_link_partner(Some(0x0061));
    assert_eq!(phy.regs.chip_status, 0x1000);
    phy.set_link_partner(Some(0x0021));
    assert_eq!(phy.regs.chip_status, 0x0000);
    assert!(!phy.link_is_up());
    assert_eq!(phy.regs.status, 0x7809);
}

#[test]
fn status_read_clears_its_latches() {
    let mut phy = linked_phy();
    assert_eq!(phy.mii_read_access(Regs::IDX_STATUS), Some(0x7829));
    assert!(phy.last_read_was_status);
    assert_eq!(phy.regs.status, 0x782d);
    assert_eq!(phy.mii_read_access(Regs::IDX_STATUS), Some(0x782d));
    assert_eq!(phy.mii_read_access(Regs::IDX_ID1), Some(0x7810));
    assert!(!phy.last_read_was_status);
    assert_eq!(phy.mii_read_access(Regs::IDX_ID2), Some(0x0001));
}

#[test]
fn latching_bits_return_to_rest_when_read() {
    let mut phy = linked_phy();
    assert_eq!(phy.mii_read_access(Regs::IDX_AN_EXPANSION), Some(0x0002));
    assert_eq!(phy.mii_read_access(Regs::IDX_AN_EXPANSION), Some(0x0000));
    assert_eq!(phy.mii_read_access(Regs::IDX_CHIP_STATUS), Some(0x3b00));
    assert_eq!(phy.regs.chip_status, 0x3a00);
    assert_eq!(phy.mii_read_access(Regs::IDX_CHIP_STATUS), Some(0x3a00));
    assert_eq!(phy.mii_read_access(Regs::IDX_AN_LP_ABILITY), Some(0x41e1));
    assert_eq!(phy.mii_read_access(Regs::IDX_AN_ADVERTISE), Some(0x01e1));
    assert_eq!(phy.mii_read_access(Regs::IDX_CONTROL), Some(0x1000));
    assert_eq!(phy.mii_read_access(Regs::IDX_CONFIG), Some(0x0018));
    assert_eq!(phy.mii_read_access(Regs::IDX_INT_STATUS), Some(0x4000));
    assert_eq!(phy.mii_read_access(Regs::IDX_INT_ENABLE), Some(0));
    assert_eq!(phy.mii_read_access(Regs::IDX_MIRROR), Some(0));
    assert_eq!(phy.mii_read_access(7), Some(0));
    assert_eq!(phy.mii_read_access(31), Some(0));
}

#[test]
fn pending_interrupt_clears_on_the_read_after_a_status_read() {
    let mut phy = linked_phy();
    phy.regs.int_status |= 0x8000;
    assert_eq!(phy.mii_read_access(Regs::IDX_INT_STATUS), Some(0xc000));
    assert_eq!(phy.mii_read_access(Regs::IDX_INT_STATUS), Some(0xc000));
    phy.mii_read_access(Regs::IDX_STATUS);
    assert_eq!(phy.mii_read_access(Regs::IDX_INT_STATUS), Some(0xc000));
    assert_eq!(phy.mii_read_access(Regs::IDX_INT_STATUS), Some(0x4000));
}

#[test]
fn writes_change_the_writable_bits_only() {
    let mut phy = linked_phy();
    assert_eq!(phy.mii_write_access(Regs::IDX_MIRROR, 0xbeef), Some(()));
    assert_eq!(phy.regs.mirror, 0xbeef);
    assert_eq!(phy.mii_write_access(Regs::IDX_INT_ENABLE, 0xffff), Some(()));
    assert_eq!(phy.regs.int_enable, 0x000f);
    assert_eq!(phy.mii_write_access(Regs::IDX_AN_ADVERTISE, 0xffff), Some(()));
    assert_eq!(phy.regs.an_advertise, 0x3fff);
    assert_eq!(phy.mii_write_access(Regs::IDX_CONFIG, 0x1234), Some(()));
    assert_eq!(phy.regs.config, 0x1234);
    assert_eq!(phy.mii_write_access(Regs::IDX_CONTROL, 0x107c), Some(()));
    assert_eq!(phy.regs.control, 0x1000);
    for idx in [Regs::IDX_STATUS, Regs::IDX_ID1, Regs::IDX_ID2, Regs::IDX_AN_LP_ABILITY, Regs::IDX_CHIP_STATUS, 9] {
        let before = phy;
        assert_eq!(phy.mii_write_access(idx, 0xffff), Some(()));
        assert_eq!(phy, before);
    }
}

#[test]
fn restart_negotiates_again() {
    let mut phy = linked_phy();
    phy.mii_read_access(Regs::IDX_CHIP_STATUS);
    phy.mii_read_access(Regs::IDX_AN_EXPANSION);
    assert_eq!(phy.mii_write_access(Regs::IDX_CONTROL, 0x1200), Some(()));
    assert_eq!(phy.regs.control, 0x1000);
    assert_eq!(phy.regs.an_expansion, 0x0002);
    assert_eq!(phy.regs.chip_status, 0x3b00);
    assert!(phy.link_is_up());
}

#[test]
fn reset_returns_the_registers_to_the_pins() {
    let mut phy = linked_phy();
    phy.mii_write_access(Regs::IDX_MIRROR, 0xbeef);
    phy.set_link_partner(None);
    assert!(phy.link_is_up());
    assert_eq!(phy.mii_write_access(Regs::IDX_CONTROL, 0x8000), Some(()));
    assert_eq!(phy.regs.control, 0x1000);
    assert_eq!(phy.regs.mirror, 0);
    assert_eq!(phy.regs.status, 0x7809);
    assert_eq!(phy.regs.chip_status, 0);
    assert!(!phy.link_is_up());
}

#[test]
fn power_down_takes_the_link_down() {
    let mut phy = linked_phy();
    phy.mii_write_access(Regs::IDX_CONTROL, 0x1800);
    assert_eq!(phy.regs.control, 0x1800);
    assert!(!phy.link_is_up());
}

#[test]
fn isolated_phy_answers_nothing() {
    let mut phy = linked_phy();
    assert_eq!(phy.mii_write_access(Regs::IDX_CONTROL, 0x1400), Some(()));
    let isolated = phy;
    assert_eq!(phy.mii_read_access(Regs::IDX_STATUS), None);
    assert_eq!(phy.mii_write_access(Regs::IDX_CONTROL, 0x1000), None);
    assert_eq!(phy, isolated);
    let trste = Pins { trste: true, ..Pins::default() };
    let mut phy = Lxt970A::new_with_pins(trste);
    assert_eq!(phy.mii_read_access(Regs::IDX_ID1), None);
}

#[test]
fn set_defaults_returns_to_the_pins() {
    let mut phy = linked_phy();
    phy.mii_write_access(Regs::IDX_MIRROR, 0x1111);
    phy.set_defaults();
    assert_eq!(phy.regs.mirror, 0);
    assert_eq!(phy.regs.control, 0x1000);
    assert_eq!(phy.regs.chip_status, 0x3b00);
    assert_eq!(phy.link_partner, Some(0x41e1));
    assert!(phy.link_is_up());
}
