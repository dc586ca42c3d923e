use dynamips::c::dev_vtty::vtty_flush;
use dynamips::c::dev_vtty::vtty_get_char;
use dynamips::c::dev_vtty::vtty_is_char_avail;
use dynamips::c::dev_vtty::vtty_put_buffer;
use dynamips::c::dev_vtty::vtty_put_char;
use dynamips::c::dev_vtty::vtty_store;
use dynamips::c::dev_vtty::vtty_store_ctrlc;
use dynamips::c::dev_vtty::vtty_store_data;
use dynamips::c::dev_vtty::Vtty;
use dynamips::c::dev_vtty::VttyAction;
use dynamips::c::dev_vtty::VttyInput;
use dynamips::c::dev_vtty::VttyType;
use dynamips::c::dev_vtty::VTTY_BUFFER_SIZE;

fn replay_of(vtty: &mut Vtty) -> Vec<u8> {
    vtty.replay_buffer.make_contiguous().to_vec()
}

fn pattern(n: usize) -> Vec<u8> {
    (0..n).map(|i| (i % 251) as u8).collect()
}

#[test]
fn new_console_is_empty() {
    let mut vtty = Vtty::new();
    assert_eq!(vtty.id, 0);
    assert_eq!(vtty.type_, VttyType::Null);
    assert_eq!(vtty.input_state, VttyInput::Text);
    assert!(!vtty.terminal_support);
    assert!(!vtty.input_pending);
    assert!(vtty.fd_array.is_empty());
    assert!(vtty.fd_pool.is_empty());
    assert_eq!(vtty.buffer.len(), 0);
    assert!(replay_of(&mut vtty).is_empty());
    assert!(vtty.name.is_empty());
}

#[test]
fn store_then_get_is_fifo() {
    let mut vtty = Vtty::new();
    assert_eq!(vtty_is_char_avail(&vtty), 0);
    assert_eq!(vtty_get_char(&mut vtty), -1);
    assert_eq!(vtty_store(&mut vtty, b'a'), 0);
    assert_eq!(vtty_store(&mut vtty, b'b'), 0);
    assert_eq!(vtty_is_char_avail(&vtty), 1);
    assert_eq!(vtty_get_char(&mut vtty), i32::from(b'a'));
    assert_eq!(vtty_get_char(&mut vtty), i32::from(b'b'));
    assert_eq!(vtty_get_char(&mut vtty), -1);
    assert_eq!(vtty_is_char_avail(&vtty), 0);
}

#[test]
fn get_char_returns_high_bytes_unsigned() {
    let mut vtty = Vtty::new();
    assert_eq!(vtty_store(&mut vtty, 0xff), 0);
    assert_eq!(vtty_get_char(&mut vtty), 255);
}

#[test]
fn one_byte_over_capacity_is_dropped() {
    let mut vtty = Vtty::new();
    let data = pattern(VTTY_BUFFER_SIZE + 1);
    let mut failed = 0;
    for &c in data.iter() {
        if vtty_store(&mut vtty, c) == -1 {
            failed += 1;
        }
    }
    assert_eq!(failed, 1);
    for &c in data.iter().take(VTTY_BUFFER_SIZE) {
        assert_eq!(vtty_get_char(&mut vtty), i32::from(c));
    }
    assert_eq!(vtty_get_char(&mut vtty), -1);
}

#[test]
fn full_buffer_takes_bytes_again_after_a_read() {
    let mut vtty = Vtty::new();
    for &c in pattern(VTTY_BUFFER_SIZE).iter() {
        assert_eq!(vtty_store(&mut vtty, c), 0);
    }
    assert_eq!(vtty_store(&mut vtty, 1), -1);
    assert_eq!(vtty_get_char(&mut vtty), 0);
    assert_eq!(vtty_store(&mut vtty, 9), 0);
    assert_eq!(vtty_store(&mut vtty, 9), -1);
}

#[test]
fn store_data_stores_all_when_there_is_room() {
    let mut vtty = Vtty::new();
    assert!(!vtty.input_pending);
    assert_eq!(vtty_store_data(&mut vtty, b"hello"), 5);
    assert!(vtty.input_pending);
    for &c in b"hello" {
        assert_eq!(vtty_get_char(&mut vtty), i32::from(c));
    }
    assert_eq!(vtty_get_char(&mut vtty), -1);
}

#[test]
fn store_data_of_nothing_marks_input_pending() {
    let mut vtty = Vtty::new();
    assert_eq!(vtty_store_data(&mut vtty, b""), 0);
    assert!(vtty.input_pending);
    assert_eq!(vtty_is_char_avail(&vtty), 0);
}

#[test]
fn store_data_with_two_free_slots_stores_two_of_five() {
    let mut vtty = Vtty::new();
    let fill = pattern(VTTY_BUFFER_SIZE - 2);
    assert_eq!(vtty_store_data(&mut vtty, &fill), (VTTY_BUFFER_SIZE - 2) as i32);
    assert_eq!(vtty_store_data(&mut vtty, &[10, 20, 30, 40, 50]), 2);
    for &c in fill.iter() {
        assert_eq!(vtty_get_char(&mut vtty), i32::from(c));
    }
    assert_eq!(vtty_get_char(&mut vtty), 10);
    assert_eq!(vtty_get_char(&mut vtty), 20);
    assert_eq!(vtty_get_char(&mut vtty), -1);
}

#[test]
fn store_data_into_full_buffer_stores_nothing() {
    let mut vtty = Vtty::new();
    let fill = pattern(VTTY_BUFFER_SIZE);
    assert_eq!(vtty_store_data(&mut vtty, &fill), VTTY_BUFFER_SIZE as i32);
    assert_eq!(vtty_store_data(&mut vtty, &[1, 2, 3]), 0);
    assert_eq!(vtty.buffer.len(), VTTY_BUFFER_SIZE);
}

#[test]
fn store_ctrlc_stores_etx() {
    let mut vtty = Vtty::new();
    assert_eq!(vtty_store_ctrlc(&mut vtty), 0);
    assert_eq!(vtty_get_char(&mut vtty), 3);
    assert_eq!(vtty_get_char(&mut vtty), -1);
}

#[test]
fn store_ctrlc_on_full_buffer_still_returns_zero() {
    let mut vtty = Vtty::new();
    vtty_store_data(&mut vtty, &pattern(VTTY_BUFFER_SIZE));
    assert_eq!(vtty_store_ctrlc(&mut vtty), 0);
    assert_eq!(vtty.buffer.len(), VTTY_BUFFER_SIZE);
}

#[test]
fn put_char_without_backend_only_records() {
    let mut vtty = Vtty::new();
    vtty.fd_array = vec![5];
    vtty.fd_pool = vec![6];
    assert!(vtty_put_char(&mut vtty, b'x').is_empty());
    assert_eq!(replay_of(&mut vtty), b"x".to_vec());
}

#[test]
fn put_char_on_terminal_writes_to_open_handles() {
    let mut vtty = Vtty::new();
    vtty.type_ = VttyType::Term;
    vtty.fd_array = vec![0, -1, 7];
    vtty.fd_pool = vec![9];
    let plan = vtty_put_char(&mut vtty, b'x');
    assert_eq!(
        plan,
        vec![
            VttyAction::Write { fd: 0, data: vec![b'x'] },
            VttyAction::Write { fd: 7, data: vec![b'x'] },
        ]
    );
    assert_eq!(replay_of(&mut vtty), b"x".to_vec());
}

#[test]
fn put_char_on_serial_writes_to_the_device() {
    let mut vtty = Vtty::new();
    vtty.type_ = VttyType::Serial;
    vtty.fd_array = vec![4];
    assert_eq!(vtty_put_char(&mut vtty, 0x80), vec![VttyAction::Write { fd: 4, data: vec![0x80] }]);
}

#[test]
fn put_char_on_tcp_sends_to_every_client() {
    let mut vtty = Vtty::new();
    vtty.type_ = VttyType::Tcp;
    vtty.fd_array = vec![3];
    vtty.fd_pool = vec![10, 11];
    let plan = vtty_put_char(&mut vtty, b'y');
    assert_eq!(
        plan,
        vec![
            VttyAction::Send { fd: 10, data: vec![b'y'] },
            VttyAction::Send { fd: 11, data: vec![b'y'] },
        ]
    );
    assert_eq!(replay_of(&mut vtty), b"y".to_vec());
}

#[test]
fn put_char_on_tcp_without_client_still_records() {
    let mut vtty = Vtty::new();
    vtty.type_ = VttyType::Tcp;
    vtty.fd_array = vec![3];
    assert!(vtty_put_char(&mut vtty, b'a').is_empty());
    assert!(vtty_put_char(&mut vtty, b'b').is_empty());
    assert_eq!(replay_of(&mut vtty), b"ab".to_vec());
}

#[test]
fn replay_keeps_the_most_recent_bytes() {
    let mut vtty = Vtty::new();
    let data = pattern(VTTY_BUFFER_SIZE + 100);
    for &c in data.iter() {
        vtty_put_char(&mut vtty, c);
    }
    assert_eq!(replay_of(&mut vtty), data[100..].to_vec());
}

#[test]
fn replay_below_capacity_keeps_everything() {
    let mut vtty = Vtty::new();
    let data = pattern(300);
    for &c in data.iter() {
        vtty_put_char(&mut vtty, c);
    }
    assert_eq!(replay_of(&mut vtty), data);
}

#[test]
fn replay_at_capacity_drops_the_oldest_byte() {
    let mut vtty = Vtty::new();
    let data = pattern(VTTY_BUFFER_SIZE);
    vtty_put_buffer(&mut vtty, &data);
    assert_eq!(replay_of(&mut vtty), data);
    vtty_put_char(&mut vtty, 0xee);
    let mut expected = data[1..].to_vec();
    expected.push(0xee);
    assert_eq!(replay_of(&mut vtty), expected);
}

#[test]
fn put_buffer_puts_each_byte_then_flushes() {
    let mut vtty = Vtty::new();
    vtty.type_ = VttyType::Term;
    vtty.fd_array = vec![0];
    let plan = vtty_put_buffer(&mut vtty, b"ok");
    assert_eq!(
        plan,
        vec![
            VttyAction::Write { fd: 0, data: vec![b'o'] },
            VttyAction::Write { fd: 0, data: vec![b'k'] },
            VttyAction::Sync { fd: 0 },
        ]
    );
    assert_eq!(replay_of(&mut vtty), b"ok".to_vec());
}

#[test]
fn put_buffer_on_tcp_does_not_sync() {
    let mut vtty = Vtty::new();
    vtty.type_ = VttyType::Tcp;
    vtty.fd_pool = vec![8];
    let plan = vtty_put_buffer(&mut vtty, b"hi");
    assert_eq!(
        plan,
        vec![
            VttyAction::Send { fd: 8, data: vec![b'h'] },
            VttyAction::Send { fd: 8, data: vec![b'i'] },
        ]
    );
}

#[test]
fn put_buffer_of_nothing_only_flushes() {
    let mut vtty = Vtty::new();
    vtty.type_ = VttyType::Serial;
    vtty.fd_array = vec![6];
    assert_eq!(vtty_put_buffer(&mut vtty, b""), vec![VttyAction::Sync { fd: 6 }]);
    assert!(replay_of(&mut vtty).is_empty());
}

#[test]
fn flush_syncs_terminal_and_serial_handles_only() {
    let mut vtty = Vtty::new();
    vtty.fd_array = vec![4, -1, 5];
    vtty.fd_pool = vec![9];
    vtty.type_ = VttyType::Term;
    assert_eq!(vtty_flush(&vtty), vec![VttyAction::Sync { fd: 4 }, VttyAction::Sync { fd: 5 }]);
    vtty.type_ = VttyType::Serial;
    assert_eq!(vtty_flush(&vtty), vec![VttyAction::Sync { fd: 4 }, VttyAction::Sync { fd: 5 }]);
    vtty.type_ = VttyType::Tcp;
    assert!(vtty_flush(&vtty).is_empty());
    vtty.type_ = VttyType::Null;
    assert!(vtty_flush(&vtty).is_empty());
}
