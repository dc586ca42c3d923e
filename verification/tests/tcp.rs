use dynamips::c::dev_vtty::vtty_create;
use dynamips::c::dev_vtty::vtty_get_char;
use dynamips::c::dev_vtty::vtty_put_buffer;
use dynamips::c::dev_vtty::Telnet;
use dynamips::c::dev_vtty::Vtty;
use dynamips::c::dev_vtty::VttyAction;
use dynamips::c::dev_vtty::VttyBackend;
use dynamips::c::dev_vtty::VttyInput;
use dynamips::c::dev_vtty::VttyRegistry;
use dynamips::c::dev_vtty::VttyTcp;
use dynamips::c::dev_vtty::VttyType;
use dynamips::c::prelude::vm_instance;
use dynamips::c::utils::FD_POOL_MAX;
use dynamips::c::vm::VM_STATUS_HALTED;
use dynamips::c::vm::VM_STATUS_RUNNING;
use dynamips::c::vm::VM_STATUS_SHUTDOWN;
use dynamips::c::vm::VM_STATUS_SUSPENDED;

const BANNER: &[u8] = b"Connected to Dynamips VM \"R1\" (ID 7, type c7200) - Console port\r\nPress ENTER to get the prompt.\r\n";

fn machine(status: i32) -> vm_instance {
    vm_instance { name: String::from("R1"), instance_id: 7, type_: String::from("c7200"), status }
}

fn listening_console() -> Vtty {
    let mut vtty = Vtty::new();
    vtty.name = String::from("Console port");
    vtty.type_ = VttyType::Tcp;
    vtty.terminal_support = true;
    vtty.fd_array = vec![3];
    vtty
}

fn opener(fd: i32) -> Vec<VttyAction> {
    vec![
        VttyAction::Write { fd, data: vec![255, 251, 1] },
        VttyAction::Write { fd, data: vec![255, 251, 3] },
        VttyAction::Write { fd, data: vec![255, 254, 34] },
        VttyAction::Write { fd, data: vec![255, 253, 24] },
    ]
}

#[test]
fn telnet_commands_are_three_bytes() {
    assert_eq!(Telnet::will_echo(), [Telnet::IAC, Telnet::WILL, Telnet::TELOPT_ECHO]);
    assert_eq!(Telnet::will_echo(), [255, 251, 1]);
    assert_eq!(Telnet::will_suppress_go_ahead(), [255, 251, 3]);
    assert_eq!(Telnet::dont_linemode(), [255, 254, 34]);
    assert_eq!(Telnet::do_ttype(), [255, 253, 24]);
    assert_eq!(Telnet::WONT, 252);
    assert_eq!(Telnet::SB, 250);
    assert_eq!(Telnet::SE, 240);
    assert_eq!(Telnet::TELQUAL_IS, 0);
    assert_eq!(Telnet::TELQUAL_SEND, 1);
}

#[test]
fn accepted_client_gets_opener_banner_and_replay() {
    let mut vtty = listening_console();
    vtty_put_buffer(&mut vtty, b"Router>");
    vtty.input_state = VttyInput::Vt2;
    let (r, plan) = VttyTcp::conn_accept(&mut vtty, 12, 1, &machine(VM_STATUS_RUNNING));
    assert_eq!(r, 0);
    let mut expected = opener(12);
    expected.push(VttyAction::Write { fd: 12, data: BANNER.to_vec() });
    expected.push(VttyAction::Write { fd: 12, data: b"Router>".to_vec() });
    assert_eq!(plan, expected);
    assert_eq!(vtty.fd_pool, vec![12]);
    assert_eq!(vtty.fd_array, vec![3]);
    assert_eq!(vtty.input_state, VttyInput::Text);
    assert_eq!(vtty.replay_buffer.make_contiguous().to_vec(), b"Router>".to_vec());
}

#[test]
fn empty_replay_is_not_sent() {
    let mut vtty = listening_console();
    let (r, plan) = VttyTcp::conn_accept(&mut vtty, 12, 1, &machine(VM_STATUS_RUNNING));
    assert_eq!(r, 0);
    let mut expected = opener(12);
    expected.push(VttyAction::Write { fd: 12, data: BANNER.to_vec() });
    assert_eq!(plan, expected);
}

#[test]
fn client_of_a_stopped_machine_is_warned() {
    for (status, text) in [(VM_STATUS_HALTED, "0"), (VM_STATUS_SHUTDOWN, "1"), (VM_STATUS_SUSPENDED, "3"), (-12, "-12"), (2147483647, "2147483647"), (-2147483648, "-2147483648")] {
        let mut vtty = listening_console();
        vtty.terminal_support = false;
        vtty_put_buffer(&mut vtty, b"#");
        let (r, plan) = VttyTcp::conn_accept(&mut vtty, 12, 1, &machine(status));
        assert_eq!(r, 0);
        let warning = format!("\r\n!!! WARNING - VM is not running, will be unresponsive (status={}) !!!\r\n", text);
        assert_eq!(
            plan,
            vec![
                VttyAction::Write { fd: 12, data: BANNER.to_vec() },
                VttyAction::Write { fd: 12, data: b"#".to_vec() },
                VttyAction::Write { fd: 12, data: warning.into_bytes() },
            ]
        );
    }
}

#[test]
fn banner_writes_identifier_in_decimal() {
    for id in [0, 9, 10, 407, -5, 1000000] {
        let mut vtty = listening_console();
        vtty.terminal_support = false;
        let mut vm = machine(VM_STATUS_RUNNING);
        vm.instance_id = id;
        let (_, plan) = VttyTcp::conn_accept(&mut vtty, 12, 1, &vm);
        let banner = format!("Connected to Dynamips VM \"R1\" (ID {}, type c7200) - Console port\r\nPress ENTER to get the prompt.\r\n", id);
        assert_eq!(plan, vec![VttyAction::Write { fd: 12, data: banner.into_bytes() }]);
    }
}

#[test]
fn greeting_can_be_disabled() {
    for telnet_message_ok in [0, 2, -1] {
        let mut vtty = listening_console();
        vtty_put_buffer(&mut vtty, b"old");
        let (r, plan) = VttyTcp::conn_accept(&mut vtty, 12, telnet_message_ok, &machine(VM_STATUS_HALTED));
        assert_eq!(r, 0);
        assert_eq!(plan, opener(12));
        assert_eq!(vtty.fd_pool, vec![12]);
    }
}

#[test]
fn accept_without_terminal_support_keeps_the_input_state() {
    let mut vtty = listening_console();
    vtty.terminal_support = false;
    vtty.input_state = VttyInput::Telnet;
    let (r, plan) = VttyTcp::conn_accept(&mut vtty, 12, 0, &machine(VM_STATUS_RUNNING));
    assert_eq!(r, 0);
    assert!(plan.is_empty());
    assert_eq!(vtty.input_state, VttyInput::Telnet);
}

#[test]
fn failed_accept_changes_nothing() {
    let mut vtty = listening_console();
    vtty.input_state = VttyInput::Vt1;
    let (r, plan) = VttyTcp::conn_accept(&mut vtty, -1, 1, &machine(VM_STATUS_RUNNING));
    assert_eq!(r, -1);
    assert!(plan.is_empty());
    assert!(vtty.fd_pool.is_empty());
    assert_eq!(vtty.input_state, VttyInput::Vt1);
}

#[test]
fn full_pool_turns_the_client_away() {
    let mut vtty = listening_console();
    for i in 0..FD_POOL_MAX {
        let (r, _) = VttyTcp::conn_accept(&mut vtty, 100 + i as i32, 0, &machine(VM_STATUS_RUNNING));
        assert_eq!(r, 0);
    }
    assert_eq!(vtty.fd_pool.len(), FD_POOL_MAX);
    vtty.input_state = VttyInput::Vt1;
    let (r, plan) = VttyTcp::conn_accept(&mut vtty, 200, 1, &machine(VM_STATUS_RUNNING));
    assert_eq!(r, -1);
    assert_eq!(plan, vec![VttyAction::Hangup { fd: 200 }]);
    assert_eq!(vtty.fd_pool.len(), FD_POOL_MAX);
    assert!(!vtty.fd_pool.contains(&200));
    assert_eq!(vtty.fd_array, vec![3]);
    assert_eq!(vtty.input_state, VttyInput::Vt1);
}

#[test]
fn pool_takes_a_client_again_after_one_left() {
    let mut vtty = listening_console();
    for i in 0..FD_POOL_MAX {
        VttyTcp::conn_accept(&mut vtty, 100 + i as i32, 0, &machine(VM_STATUS_RUNNING));
    }
    assert_eq!(VttyTcp::disconnect(&mut vtty, 105), vec![VttyAction::Hangup { fd: 105 }]);
    let (r, _) = VttyTcp::conn_accept(&mut vtty, 200, 0, &machine(VM_STATUS_RUNNING));
    assert_eq!(r, 0);
    assert_eq!(vtty.fd_pool.len(), FD_POOL_MAX);
    assert_eq!(vtty.fd_pool[FD_POOL_MAX - 1], 200);
}

#[test]
fn disconnect_drops_that_client_only() {
    let mut vtty = listening_console();
    vtty.fd_pool = vec![10, 11, 12];
    assert_eq!(VttyTcp::disconnect(&mut vtty, 11), vec![VttyAction::Hangup { fd: 11 }]);
    assert_eq!(vtty.fd_pool, vec![10, 12]);
    assert_eq!(vtty.fd_array, vec![3]);
    assert!(VttyTcp::disconnect(&mut vtty, 11).is_empty());
    assert_eq!(vtty.fd_pool, vec![10, 12]);
}

#[test]
fn tcp_read_gives_up_on_failure() {
    let mut fd_slot = 10;
    assert_eq!(VttyTcp::read(&mut fd_slot, Some(b'a')), (97, vec![]));
    assert_eq!(fd_slot, 10);
    assert_eq!(VttyTcp::read(&mut fd_slot, None), (-1, vec![VttyAction::Hangup { fd: 10 }]));
    assert_eq!(fd_slot, -1);
}

#[test]
fn listening_address_prefers_the_console_binding() {
    assert_eq!(VttyTcp::conn_wait_address(Some("10.0.0.1"), Some("10.0.0.2")), "10.0.0.1");
    assert_eq!(VttyTcp::conn_wait_address(Some(""), Some("10.0.0.2")), "10.0.0.2");
    assert_eq!(VttyTcp::conn_wait_address(None, Some("10.0.0.2")), "10.0.0.2");
    assert_eq!(VttyTcp::conn_wait_address(Some("10.0.0.1"), None), "10.0.0.1");
    assert_eq!(VttyTcp::conn_wait_address(Some(""), Some("")), "127.0.0.1");
    assert_eq!(VttyTcp::conn_wait_address(None, None), "127.0.0.1");
    assert_eq!(VttyTcp::conn_wait_address(Some(""), None), "127.0.0.1");
    assert_eq!(VttyTcp::conn_wait_address(None, Some("")), "127.0.0.1");
}

#[test]
fn client_on_port_2000_is_greeted_and_types_ls() {
    let mut reg = VttyRegistry::new();
    let id = vtty_create(&mut reg, 1, "Console port", VttyBackend::Tcp { port: 2000 }, vec![3]).unwrap();
    let vm = machine(VM_STATUS_RUNNING);
    let at = reg.find(id).unwrap();
    assert_eq!(reg.list[at].tcp_port, 2000);
    assert_eq!(vtty_get_char(&mut reg.list[at]), -1);

    assert_eq!(reg.list[at].ready_listeners(&[3]), vec![3]);
    let (r, plan) = VttyTcp::conn_accept(&mut reg.list[at], 12, reg.telnet_message_ok, &vm);
    assert_eq!(r, 0);
    let mut expected = opener(12);
    expected.push(VttyAction::Write { fd: 12, data: BANNER.to_vec() });
    assert_eq!(plan, expected);

    for &c in b"ls\n" {
        assert_eq!(reg.list[at].ready_handles(&[12]), vec![12]);
        assert!(reg.list[at].poll_read(12, Some(c), reg.ctrl_code_ok, &vm).is_empty());
    }
    assert_eq!(vtty_get_char(&mut reg.list[at]), i32::from(b'l'));
    assert_eq!(vtty_get_char(&mut reg.list[at]), i32::from(b's'));
    assert_eq!(vtty_get_char(&mut reg.list[at]), -1);
}

#[test]
fn two_clients_in_one_cycle_are_both_stored() {
    let mut reg = VttyRegistry::new();
    let id = vtty_create(&mut reg, 1, "Console port", VttyBackend::Tcp { port: 2000 }, vec![3]).unwrap();
    let vm = machine(VM_STATUS_RUNNING);
    let at = reg.find(id).unwrap();
    VttyTcp::conn_accept(&mut reg.list[at], 20, 1, &vm);
    VttyTcp::conn_accept(&mut reg.list[at], 21, 1, &vm);
    let ready = reg.list[at].ready_handles(&[21, 20]);
    assert_eq!(ready, vec![20, 21]);
    for fd in ready {
        let c = if fd == 20 { b'A' } else { b'B' };
        reg.list[at].poll_read(fd, Some(c), 1, &vm);
    }
    let first = vtty_get_char(&mut reg.list[at]);
    let second = vtty_get_char(&mut reg.list[at]);
    let mut both = vec![first, second];
    both.sort();
    assert_eq!(both, vec![i32::from(b'A'), i32::from(b'B')]);
    assert_eq!(vtty_get_char(&mut reg.list[at]), -1);
}
