use dynamips::c::dev_vtty::console::read_handles;
use dynamips::c::dev_vtty::input::vtty_input;
use dynamips::c::dev_vtty::vtty_get_char;
use dynamips::c::dev_vtty::vtty_read;
use dynamips::c::dev_vtty::vtty_read_and_store;
use dynamips::c::dev_vtty::Telnet;
use dynamips::c::dev_vtty::Vtty;
use dynamips::c::dev_vtty::VttyAction;
use dynamips::c::dev_vtty::VttyEffect;
use dynamips::c::dev_vtty::VttyInput;
use dynamips::c::dev_vtty::VttyTerm;
use dynamips::c::dev_vtty::VttyType;
use dynamips::c::dev_vtty::VTTY_BUFFER_SIZE;
use dynamips::c::prelude::vm_instance;

fn owner() -> vm_instance {
    vm_instance { name: String::from("R1"), instance_id: 7, type_: String::from("c7200"), status: 2 }
}

fn tcp_console(clients: Vec<i32>) -> Vtty {
    let mut vtty = Vtty::new();
    vtty.type_ = VttyType::Tcp;
    vtty.terminal_support = true;
    vtty.fd_array = vec![3];
    vtty.fd_pool = clients;
    vtty
}

fn feed(vtty: &mut Vtty, fd: i32, bytes: &[u8], ctrl_code_ok: i32) -> Vec<VttyAction> {
    let vm = owner();
    let mut plan = Vec::new();
    for &c in bytes {
        let mut fd_slot = fd;
        plan.extend(vtty_read_and_store(vtty, &mut fd_slot, Some(c), ctrl_code_ok, &vm));
        assert_eq!(fd_slot, fd);
    }
    plan
}

fn drain(vtty: &mut Vtty) -> Vec<u8> {
    let mut out = Vec::new();
    loop {
        let c = vtty_get_char(vtty);
        if c < 0 {
            return out;
        }
        out.push(c as u8);
    }
}

#[test]
fn plain_text_is_stored_unchanged() {
    let mut vtty = tcp_console(vec![10]);
    let text: Vec<u8> = (0..=255u8).filter(|c| ![0x1b, 0x1d, 0xb3, 0xff, 0x00, 0x0a].contains(c)).collect();
    assert_eq!(text.len(), 250);
    assert!(feed(&mut vtty, 10, &text, 1).is_empty());
    assert_eq!(vtty.input_state, VttyInput::Text);
    assert!(vtty.input_pending);
    assert_eq!(drain(&mut vtty), text);
}

#[test]
fn nul_and_line_feed_are_never_stored() {
    let mut vtty = tcp_console(vec![10]);
    assert!(feed(&mut vtty, 10, &[0x00, 0x0a, b'a', 0x00, 0x0a, 0x0a, b'b', 0x00], 1).is_empty());
    assert_eq!(vtty.input_state, VttyInput::Text);
    assert_eq!(drain(&mut vtty), b"ab".to_vec());
}

#[test]
fn dropped_byte_still_marks_input_pending() {
    let mut vtty = tcp_console(vec![10]);
    feed(&mut vtty, 10, &[0x00], 1);
    assert!(vtty.input_pending);
    assert!(drain(&mut vtty).is_empty());
}

#[test]
fn carriage_return_is_stored() {
    let mut vtty = tcp_console(vec![10]);
    feed(&mut vtty, 10, b"ls\r\n", 1);
    assert_eq!(drain(&mut vtty), b"ls\r".to_vec());
}

#[test]
fn arrow_keys_become_control_codes() {
    for (key, code) in [(0x41u8, 0x10u8), (0x42, 0x0e), (0x43, 0x06), (0x44, 0x02)] {
        let mut vtty = tcp_console(vec![10]);
        assert!(feed(&mut vtty, 10, &[0x1b, 0x5b, key], 1).is_empty());
        assert_eq!(vtty.input_state, VttyInput::Text);
        assert_eq!(drain(&mut vtty), vec![code]);
    }
}

#[test]
fn escape_states_are_entered_in_turn() {
    let mut vtty = tcp_console(vec![10]);
    feed(&mut vtty, 10, &[0x1b], 1);
    assert_eq!(vtty.input_state, VttyInput::Vt1);
    feed(&mut vtty, 10, &[0x5b], 1);
    assert_eq!(vtty.input_state, VttyInput::Vt2);
    assert!(drain(&mut vtty).is_empty());
}

#[test]
fn unknown_escape_sequence_is_kept_whole() {
    let mut vtty = tcp_console(vec![10]);
    feed(&mut vtty, 10, &[0x1b, 0x5b, 0x45], 1);
    assert_eq!(vtty.input_state, VttyInput::Text);
    assert_eq!(drain(&mut vtty), vec![0x1b, 0x5b, 0x45]);
}

#[test]
fn lone_escape_is_kept() {
    for other in [b'a', 0x00, 0x0a, 0x1b, 0xff, 0x5a, 0x5c] {
        let mut vtty = tcp_console(vec![10]);
        feed(&mut vtty, 10, &[0x1b, other], 1);
        assert_eq!(vtty.input_state, VttyInput::Text);
        assert_eq!(drain(&mut vtty), vec![0x1b, other]);
    }
}

#[test]
fn escape_pair_with_one_free_slot_keeps_the_escape_only() {
    let mut vtty = tcp_console(vec![10]);
    for _ in 0..VTTY_BUFFER_SIZE - 1 {
        feed(&mut vtty, 10, b"x", 1);
    }
    feed(&mut vtty, 10, &[0x1b, b'q'], 1);
    let held = drain(&mut vtty);
    assert_eq!(held.len(), VTTY_BUFFER_SIZE);
    assert_eq!(held[VTTY_BUFFER_SIZE - 1], 0x1b);
}

#[test]
fn ttype_offer_is_answered_with_a_request() {
    let mut vtty = tcp_console(vec![10]);
    let plan = feed(&mut vtty, 10, &[Telnet::IAC, Telnet::WILL, Telnet::TELOPT_TTYPE], 1);
    let reply: Vec<u8> = plan
        .iter()
        .map(|a| match a {
            VttyAction::Send { fd: 10, data } => data[0],
            other => panic!("unexpected action {:?}", other),
        })
        .collect();
    assert_eq!(reply, vec![255, 250, 24, 1, 255, 240]);
    assert_eq!(plan.len(), 6);
    assert_eq!(vtty.input_state, VttyInput::Text);
    assert!(drain(&mut vtty).is_empty());
    assert_eq!(vtty.replay_buffer.make_contiguous().to_vec(), vec![255, 250, 24, 1, 255, 240]);
}

#[test]
fn ttype_request_goes_to_every_client() {
    let mut vtty = tcp_console(vec![10, 11]);
    let plan = feed(&mut vtty, 11, &[Telnet::IAC, Telnet::WILL, Telnet::TELOPT_TTYPE], 1);
    assert_eq!(plan.len(), 12);
    assert_eq!(plan[0], VttyAction::Send { fd: 10, data: vec![255] });
    assert_eq!(plan[1], VttyAction::Send { fd: 11, data: vec![255] });
    assert_eq!(plan[2], VttyAction::Send { fd: 10, data: vec![250] });
    assert_eq!(plan[11], VttyAction::Send { fd: 11, data: vec![240] });
}

#[test]
fn other_option_commands_are_swallowed() {
    for cmd in [Telnet::WILL, Telnet::WONT, Telnet::DO, Telnet::DONT] {
        for opt in [Telnet::TELOPT_ECHO, Telnet::TELOPT_SGA, Telnet::TELOPT_LINEMODE, Telnet::TELOPT_TTYPE] {
            if cmd == Telnet::WILL && opt == Telnet::TELOPT_TTYPE {
                continue;
            }
            let mut vtty = tcp_console(vec![10]);
            assert!(feed(&mut vtty, 10, &[Telnet::IAC, cmd], 1).is_empty());
            assert_eq!(vtty.input_state, VttyInput::TelnetIyou(cmd));
            assert!(feed(&mut vtty, 10, &[opt], 1).is_empty());
            assert_eq!(vtty.input_state, VttyInput::Text);
            assert!(drain(&mut vtty).is_empty());
        }
    }
}

#[test]
fn doubled_iac_stores_one_literal() {
    let mut vtty = tcp_console(vec![10]);
    feed(&mut vtty, 10, &[Telnet::IAC, Telnet::IAC], 1);
    assert_eq!(vtty.input_state, VttyInput::Text);
    assert_eq!(drain(&mut vtty), vec![0xff]);
}

#[test]
fn se_and_unknown_commands_return_to_text() {
    for cmd in [Telnet::SE, 241, 0, b'a'] {
        let mut vtty = tcp_console(vec![10]);
        feed(&mut vtty, 10, &[Telnet::IAC, cmd], 1);
        assert_eq!(vtty.input_state, VttyInput::Text);
        assert!(drain(&mut vtty).is_empty());
    }
}

#[test]
fn terminal_type_of_xterm_sets_the_title() {
    let mut vtty = tcp_console(vec![10, 11]);
    assert!(feed(&mut vtty, 11, &[Telnet::IAC, Telnet::SB], 1).is_empty());
    assert_eq!(vtty.input_state, VttyInput::TelnetSb1(Telnet::SB));
    assert!(feed(&mut vtty, 11, &[Telnet::TELOPT_TTYPE], 1).is_empty());
    assert_eq!(vtty.input_state, VttyInput::TelnetSb2(Telnet::SB, 24));
    assert!(feed(&mut vtty, 11, &[Telnet::TELQUAL_IS], 1).is_empty());
    assert_eq!(vtty.input_state, VttyInput::TelnetSbTtype(Telnet::SB, 24, 0));
    let plan = feed(&mut vtty, 11, b"x", 1);
    assert_eq!(plan, vec![VttyAction::Write { fd: 11, data: b"\x1b]0;R1\x07".to_vec() }]);
    assert_eq!(vtty.input_state, VttyInput::TelnetNext);
    assert!(feed(&mut vtty, 11, b"term", 1).is_empty());
    assert_eq!(vtty.input_state, VttyInput::TelnetNext);
    assert!(feed(&mut vtty, 11, &[Telnet::IAC], 1).is_empty());
    assert_eq!(vtty.input_state, VttyInput::Telnet);
    assert!(feed(&mut vtty, 11, &[Telnet::SE], 1).is_empty());
    assert_eq!(vtty.input_state, VttyInput::Text);
    assert!(drain(&mut vtty).is_empty());
    assert!(vtty.replay_buffer.is_empty());
}

#[test]
fn title_is_set_for_x_and_v_in_either_case() {
    for (first, titled) in [(b'x', true), (b'X', true), (b'v', true), (b'V', true), (b'a', false), (b'l', false)] {
        let mut vtty = tcp_console(vec![10]);
        feed(&mut vtty, 10, &[Telnet::IAC, Telnet::SB, Telnet::TELOPT_TTYPE, Telnet::TELQUAL_IS], 1);
        let plan = feed(&mut vtty, 10, &[first], 1);
        assert_eq!(plan.len(), usize::from(titled));
        assert_eq!(vtty.input_state, VttyInput::TelnetNext);
    }
}

#[test]
fn other_subnegotiation_is_drained() {
    let mut vtty = tcp_console(vec![10]);
    let plan = feed(&mut vtty, 10, &[Telnet::IAC, Telnet::SB, 31, 0, 80, 0, 24, Telnet::IAC, Telnet::SE, b'z'], 1);
    assert!(plan.is_empty());
    assert_eq!(vtty.input_state, VttyInput::Text);
    assert_eq!(drain(&mut vtty), b"z".to_vec());
}

#[test]
fn ttype_send_qualifier_is_drained() {
    let mut vtty = tcp_console(vec![10]);
    feed(&mut vtty, 10, &[Telnet::IAC, Telnet::SB, Telnet::TELOPT_TTYPE, Telnet::TELQUAL_SEND], 1);
    assert_eq!(vtty.input_state, VttyInput::TelnetNext);
}

#[test]
fn control_escape_hands_next_byte_to_remote_control() {
    for escape in [0x1d, 0xb3] {
        let mut vtty = tcp_console(vec![10]);
        assert!(feed(&mut vtty, 10, &[escape], 1).is_empty());
        assert_eq!(vtty.input_state, VttyInput::Remote);
        assert_eq!(feed(&mut vtty, 10, b"q", 1), vec![VttyAction::Remote { c: b'q' }]);
        assert_eq!(vtty.input_state, VttyInput::Text);
        assert!(drain(&mut vtty).is_empty());
    }
}

#[test]
fn control_escape_is_text_when_disabled() {
    for ctrl_code_ok in [0, 2, -1] {
        let mut vtty = tcp_console(vec![10]);
        assert!(feed(&mut vtty, 10, &[0x1d, b'q', 0xb3], ctrl_code_ok).is_empty());
        assert_eq!(vtty.input_state, VttyInput::Text);
        assert_eq!(drain(&mut vtty), vec![0x1d, b'q', 0xb3]);
    }
}

#[test]
fn console_without_terminal_support_stores_every_byte() {
    let mut vtty = Vtty::new();
    vtty.type_ = VttyType::Serial;
    vtty.fd_array = vec![4];
    let raw = [0x1b, 0x5b, 0x41, 0xff, 0xfb, 24, 0x00, 0x0a, 0x1d];
    assert!(feed(&mut vtty, 4, &raw, 1).is_empty());
    assert_eq!(vtty.input_state, VttyInput::Text);
    assert_eq!(drain(&mut vtty), raw.to_vec());
}

#[test]
fn failed_read_on_tcp_gives_the_client_up() {
    let mut vtty = tcp_console(vec![10, 11]);
    let mut fd_slot = 11;
    let plan = vtty_read_and_store(&mut vtty, &mut fd_slot, None, 1, &owner());
    assert_eq!(plan, vec![VttyAction::Hangup { fd: 11 }]);
    assert_eq!(fd_slot, -1);
    assert!(!vtty.input_pending);
    assert_eq!(vtty.fd_pool, vec![10, 11]);
    assert!(drain(&mut vtty).is_empty());
}

#[test]
fn failed_read_on_terminal_changes_nothing() {
    let mut vtty = Vtty::new();
    vtty.type_ = VttyType::Term;
    vtty.terminal_support = true;
    vtty.fd_array = vec![0];
    let mut fd_slot = 0;
    assert!(vtty_read_and_store(&mut vtty, &mut fd_slot, None, 1, &owner()).is_empty());
    assert_eq!(fd_slot, 0);
    assert!(!vtty.input_pending);
}

#[test]
fn vtty_read_returns_the_byte_or_minus_one() {
    let mut vtty = tcp_console(vec![10]);
    let mut fd_slot = 10;
    assert_eq!(vtty_read(&vtty, &mut fd_slot, Some(200)), (200, vec![]));
    assert_eq!(fd_slot, 10);
    assert_eq!(vtty_read(&vtty, &mut fd_slot, None), (-1, vec![VttyAction::Hangup { fd: 10 }]));
    assert_eq!(fd_slot, -1);
    vtty.type_ = VttyType::Serial;
    let mut fd_slot = 4;
    assert_eq!(vtty_read(&vtty, &mut fd_slot, None), (-1, vec![]));
    assert_eq!(fd_slot, 4);
    assert_eq!(vtty_read(&vtty, &mut fd_slot, Some(0)), (0, vec![]));
    vtty.type_ = VttyType::Null;
    assert_eq!(vtty_read(&vtty, &mut fd_slot, None), (-1, vec![]));
    assert_eq!(VttyTerm::read(&vtty, Some(65)), 65);
    assert_eq!(VttyTerm::read(&vtty, None), -1);
}

#[test]
fn read_handles_depend_on_the_type() {
    let mut vtty = Vtty::new();
    vtty.fd_array = vec![4, -1, 5];
    vtty.fd_pool = vec![10];
    assert!(read_handles(&vtty, 4).is_empty());
    vtty.type_ = VttyType::Term;
    assert_eq!(read_handles(&vtty, 4), vec![4, 5]);
    assert_eq!(VttyTerm::read_handles(&vtty), vec![4, 5]);
    vtty.type_ = VttyType::Serial;
    assert_eq!(read_handles(&vtty, 5), vec![4, 5]);
    vtty.type_ = VttyType::Tcp;
    assert_eq!(read_handles(&vtty, 10), vec![10]);
}

#[test]
fn automaton_step_is_defined_for_every_state_and_byte() {
    let states = [
        VttyInput::Text,
        VttyInput::Vt1,
        VttyInput::Vt2,
        VttyInput::Remote,
        VttyInput::Telnet,
        VttyInput::TelnetIyou(Telnet::WILL),
        VttyInput::TelnetSb1(Telnet::SB),
        VttyInput::TelnetSb2(Telnet::SB, 24),
        VttyInput::TelnetSbTtype(Telnet::SB, 24, 0),
        VttyInput::TelnetNext,
    ];
    for state in states {
        for c in 0..=255u8 {
            let (_, store, _) = vtty_input(state, c, true);
            assert!(store.len() <= 3);
        }
    }
    assert_eq!(vtty_input(VttyInput::Text, b'a', true), (VttyInput::Text, vec![b'a'], VttyEffect::Quiet));
    assert_eq!(vtty_input(VttyInput::Remote, 9, false), (VttyInput::Text, vec![], VttyEffect::Remote(9)));
    assert_eq!(vtty_input(VttyInput::TelnetIyou(251), 24, true), (VttyInput::Text, vec![], VttyEffect::AskTtype));
    assert_eq!(vtty_input(VttyInput::TelnetSbTtype(250, 24, 0), b'v', true), (VttyInput::TelnetNext, vec![], VttyEffect::Title));
}
