use dynamips::c::dev_vtty::vtty_store;
use dynamips::c::dev_vtty::Vtty;
use dynamips::c::dev_vtty::VttyAction;
use dynamips::c::dev_vtty::VttyType;
use dynamips::uart::memory::ReceiverMemory;
use dynamips::uart::memory::TransmitterMemory;
use dynamips::uart::ns16552::Modem;
use dynamips::uart::ns16552::Ns16552;
use dynamips::uart::ns16552::Packet;
use dynamips::uart::ns16552::Uart;
use std::time::Duration;

const MS: u64 = 1_000_000;

fn wired_console() -> Vtty {
    let mut vtty = Vtty::new();
    vtty.type_ = VttyType::Tcp;
    vtty.fd_array = vec![3];
    vtty.fd_pool = vec![10];
    vtty
}

fn wired_uart() -> Uart {
    let mut uart = Uart::new(0);
    uart.set_vtty(Some(1), false);
    uart
}

#[test]
fn test_uart_packet_duration() {
    let mut uart = Uart::new(0);
    uart.dlm = 0;
    uart.dll = 24; // baud 9600
    uart.lcr = (uart.lcr & !0x03) | (8 - 5); // 8 data bits
    uart.lcr &= !0x08; // 0 parity bits
    uart.lcr &= !0x04; // 1 stop bit
    uart.update_packet_duration();
    assert_eq!(Duration::from_nanos(1_041_666), Duration::from_nanos(uart.packet_duration));

    uart.lcr |= 0x04; // 2 stop bits
    uart.update_packet_duration();
    assert_eq!(Duration::from_nanos(1_145_833), Duration::from_nanos(uart.packet_duration));

    uart.dll = 0; // no baud
    uart.update_packet_duration();
    assert_eq!(Duration::ZERO, Duration::from_nanos(uart.packet_duration));
}

#[test]
fn packet_duration_counts_parity_and_half_stop_bits() {
    let mut uart = Uart::new(0);
    uart.lcr = 0x0b; // 8 data bits, parity
    uart.update_packet_duration();
    assert_eq!(uart.packet_duration, 1_145_833);
    uart.lcr = 0x04; // 5 data bits, 1.5 stop bits
    uart.update_packet_duration();
    // 2 * 230400 packets per 2 * 24 * 7 + 1 ticks
    assert_eq!(uart.packet_duration, 337 * 1_000_000_000 / 460_800);
    uart.lcr = 0x03;
    uart.dll = 0xff;
    uart.dlm = 0xff;
    uart.update_packet_duration();
    assert_eq!(uart.packet_duration, 65535 * 10 * 1_000_000_000 / 230_400);
    assert_eq!(Ns16552::CRYSTAL_HZ, 3_686_400);
}

#[test]
fn packet_value_is_its_byte() {
    assert_eq!(Packet::Data(0x41).value(), 0x41);
    assert_eq!(Packet::ParityError(0x42).value(), 0x42);
    assert_eq!(Packet::FrameError.value(), 0);
    assert_eq!(Packet::BreakInterrupt.value(), 0);
}

#[test]
fn only_data_is_no_error() {
    assert!(!Packet::Data(0).is_error());
    assert!(Packet::ParityError(0).is_error());
    assert!(Packet::FrameError.is_error());
    assert!(Packet::BreakInterrupt.is_error());
}

#[test]
fn modem_starts_with_every_signal_low() {
    assert_eq!(Modem::default(), Modem { cts: false, dsr: false, ri: false, dcd: false });
}

#[test]
fn transmitter_memory_holds_sixteen_bytes() {
    let mut tx = TransmitterMemory::new();
    assert!(tx.is_empty());
    assert!(!tx.has_data());
    assert!(tx.has_space());
    assert_eq!(tx.pop(), None);
    assert_eq!(tx.transmit_byte, None);
    for i in 0..16 {
        assert!(tx.push(i));
    }
    assert!(!tx.has_space());
    assert!(tx.has_data());
    assert!(!tx.push(99));
    for i in 0..16 {
        assert_eq!(tx.pop(), Some(i));
    }
    assert!(tx.is_empty());
    assert!(tx.push(7));
    assert_eq!(tx.pop(), Some(7));
}

#[test]
fn receiver_memory_holds_sixteen_packets() {
    let mut rx = ReceiverMemory::new();
    assert!(rx.is_empty());
    assert!(!rx.has_data());
    assert!(rx.has_space());
    assert_eq!(rx.pop(), None);
    assert_eq!(rx.peek(), None);
    assert!(!rx.has_error_in_fifo());
    for i in 0..16 {
        assert!(rx.push(Packet::Data(i)));
    }
    assert!(!rx.has_space());
    assert!(!rx.push(Packet::Data(99)));
    assert_eq!(rx.peek(), Some(&Packet::Data(0)));
    assert_eq!(rx.pop(), Some(Packet::Data(0)));
    assert_eq!(rx.peek(), Some(&Packet::Data(1)));
    assert!(!rx.has_error_in_fifo());
    assert!(rx.push(Packet::FrameError));
    assert!(rx.has_error_in_fifo());
    rx.reset();
    assert!(rx.is_empty());
    assert!(!rx.has_error_in_fifo());
    assert!(rx.push(Packet::ParityError(1)));
    assert!(rx.has_error_in_fifo());
    assert_eq!(rx.pop(), Some(Packet::ParityError(1)));
    assert!(!rx.has_error_in_fifo());
}

#[test]
fn channel_starts_in_reset_configuration() {
    let uart = Uart::new(77);
    assert_eq!(uart.vtty, None);
    assert_eq!(uart.modem, Modem::default());
    assert_eq!((uart.transmit_instant, uart.receive_instant, uart.read_instant), (77, 77, 77));
    assert_eq!((uart.ier, uart.iir, uart.fcr, uart.lcr, uart.mcr), (0, 1, 0, 3, 0));
    assert_eq!((uart.lsr, uart.msr, uart.scr, uart.dll, uart.dlm, uart.afr), (0x60, 0, 0, 24, 0, 0));
    assert_eq!(uart.packet_duration, 1_041_666);
    assert!(!uart.has_interrupt());
    assert!(uart.transmitter.is_empty());
    assert!(uart.receiver.is_empty());
}

#[test]
fn wiring_a_console_sets_the_modem_pins() {
    let mut uart = Uart::new(0);
    uart.set_vtty(Some(4), true);
    assert_eq!(uart.vtty, Some(4));
    assert_eq!(uart.modem, Modem { cts: true, dsr: true, ri: false, dcd: true });
    uart.set_vtty(Some(4), false);
    assert_eq!(uart.modem, Modem { cts: true, dsr: false, ri: false, dcd: true });
    uart.set_vtty(None, true);
    assert_eq!(uart.vtty, None);
    assert_eq!(uart.modem, Modem::default());
}

#[test]
fn modem_status_latches_changes() {
    let mut uart = wired_uart();
    uart.modem_control_logic(0);
    assert_eq!(uart.msr, 0x99); // CTS, DCD and their deltas
    assert_eq!(uart.read_access(6, 0), Some(0x99));
    assert_eq!(uart.msr, 0x90);
    uart.modem_control_logic(0);
    assert_eq!(uart.msr, 0x90);
    uart.modem.ri = true;
    uart.modem_control_logic(0);
    assert_eq!(uart.msr, 0xd4); // RI with its edge
    assert_eq!(uart.read_access(6, 0), Some(0xd4));
    uart.modem.ri = false;
    uart.modem_control_logic(0);
    assert_eq!(uart.msr, 0x90); // no edge when the ring ends
}

#[test]
fn loopback_feeds_the_modem_lines_back() {
    let mut uart = Uart::new(0);
    let mut vtty = Vtty::new();
    assert_eq!(uart.write_access(4, 0xff, 0, &mut vtty), (Some(()), vec![]));
    assert_eq!(uart.mcr, 0x1f);
    uart.modem_control_logic(0);
    assert_eq!(uart.msr, 0xff);
    assert_eq!(uart.write_access(4, 0x12, 0, &mut vtty), (Some(()), vec![])); // loop, RTS
    uart.modem_control_logic(0);
    assert_eq!(uart.read_access(6, 0), Some(0x1f)); // CTS stays, the others fell; the deltas were not read
    assert_eq!(uart.msr, 0x10);
}

#[test]
fn scratch_and_line_control_read_back() {
    let mut uart = Uart::new(0);
    let mut vtty = Vtty::new();
    assert_eq!(uart.write_access(7, 0xa5, 0, &mut vtty), (Some(()), vec![]));
    assert_eq!(uart.read_access(7, 0), Some(0xa5));
    assert_eq!(uart.write_access(3, 0x1b, 0, &mut vtty), (Some(()), vec![]));
    assert_eq!(uart.read_access(3, 0), Some(0x1b));
    assert_eq!(uart.packet_duration, 1_145_833);
    assert_eq!(uart.write_access(1, 0xff, 0, &mut vtty), (Some(()), vec![]));
    assert_eq!(uart.read_access(1, 0), Some(0x0f));
    assert_eq!(uart.write_access(2, 0xff, 0, &mut vtty), (Some(()), vec![]));
    assert_eq!(uart.fcr, 0xcf);
    assert_eq!(uart.read_access(4, 0), Some(0));
}

#[test]
fn divisor_latch_is_behind_dlab() {
    let mut uart = Uart::new(0);
    let mut vtty = Vtty::new();
    uart.write_access(3, 0x83, 0, &mut vtty);
    assert_eq!(uart.read_access(0, 0), Some(24));
    assert_eq!(uart.read_access(1, 0), Some(0));
    uart.write_access(0, 12, 0, &mut vtty);
    uart.write_access(1, 1, 0, &mut vtty);
    assert_eq!((uart.dll, uart.dlm), (12, 1));
    assert_eq!(uart.packet_duration, (12 + 256) * 10 * 1_000_000_000 / 230_400);
    uart.write_access(2, 0xff, 0, &mut vtty);
    assert_eq!(uart.afr, 0x07);
    assert_eq!(uart.read_access(2, 0), Some(0x07));
    assert_eq!(uart.fcr, 0);
    assert!(uart.transmitter.is_empty());
}

#[test]
fn registers_five_and_six_cannot_be_written() {
    let mut uart = Uart::new(0);
    let mut vtty = Vtty::new();
    assert_eq!(uart.write_access(5, 0xff, 0, &mut vtty), (None, vec![]));
    assert_eq!(uart.write_access(6, 0xff, 0, &mut vtty), (None, vec![]));
    assert_eq!(uart.write_access(8, 0xff, 0, &mut vtty), (None, vec![]));
    assert_eq!((uart.lsr, uart.msr), (0x60, 0));
    assert_eq!(uart.read_access(8, 0), None);
}

#[test]
fn written_byte_reaches_the_console_on_the_next_tick() {
    let mut uart = wired_uart();
    let mut vtty = wired_console();
    let now = 10 * MS;
    assert_eq!(uart.write_access(0, b'A', now, &mut vtty), (Some(()), vec![]));
    assert_eq!(uart.lsr, 0x40);
    assert!(uart.transmitter.has_data());
    assert!(uart.transmit_packet_is_possible());
    let plan = uart.tick(now, &mut vtty);
    assert_eq!(plan, vec![VttyAction::Send { fd: 10, data: vec![b'A'] }]);
    assert_eq!(vtty.replay_buffer.make_contiguous().to_vec(), b"A".to_vec());
    assert_eq!(uart.transmitter.transmit_byte, Some(b'A'));
    assert!(uart.transmitter.is_empty());
    assert_eq!(uart.transmit_instant, now);
    assert_eq!(uart.lsr, 0x20);
    assert_eq!(uart.msr, 0x99);
    assert_eq!(uart.iir, 0x01);
}

#[test]
fn transmitter_goes_idle_after_two_packet_durations() {
    let mut uart = wired_uart();
    let mut vtty = wired_console();
    vtty.type_ = VttyType::Serial;
    vtty.fd_array = vec![4];
    uart.write_access(0, b'A', 10 * MS, &mut vtty);
    assert_eq!(uart.tick(10 * MS, &mut vtty), vec![VttyAction::Write { fd: 4, data: vec![b'A'] }]);
    assert_eq!(uart.tick(11 * MS, &mut vtty), vec![]);
    assert_eq!(uart.lsr & 0x40, 0);
    assert_eq!(uart.tick(13 * MS, &mut vtty), vec![VttyAction::Sync { fd: 4 }]);
    assert_eq!(uart.lsr, 0x60);
}

#[test]
fn second_byte_in_16450_mode_is_sent_early_not_lost() {
    let mut uart = wired_uart();
    let mut vtty = wired_console();
    let now = 10 * MS;
    uart.tick(now, &mut vtty);
    assert_eq!(uart.write_access(0, b'A', now, &mut vtty), (Some(()), vec![]));
    let (done, plan) = uart.write_access(0, b'B', now, &mut vtty);
    assert_eq!(done, Some(()));
    assert_eq!(plan, vec![VttyAction::Send { fd: 10, data: vec![b'A'] }]);
    assert_eq!(uart.lsr & 0x02, 0);
    assert_eq!(uart.transmitter.transmit_byte, Some(b'A'));
    assert_eq!(uart.transmitter.pop(), Some(b'B'));
}

#[test]
fn unwired_channel_overruns_on_the_second_byte() {
    let mut uart = Uart::new(0);
    let mut vtty = Vtty::new();
    assert_eq!(uart.write_access(0, b'A', MS, &mut vtty), (Some(()), vec![]));
    assert_eq!(uart.write_access(0, b'B', MS, &mut vtty), (Some(()), vec![]));
    assert_eq!(uart.lsr & 0x02, 0x02);
    assert_eq!(uart.transmitter.pop(), Some(b'A'));
    assert_eq!(uart.transmitter.pop(), None);
    assert!(!uart.transmit_packet_is_possible());
    assert_eq!(uart.transmit_packet(&mut vtty), (false, vec![]));
}

#[test]
fn character_of_the_console_is_received_and_read() {
    let mut uart = wired_uart();
    let mut vtty = wired_console();
    vtty_store(&mut vtty, b'x');
    vtty_store(&mut vtty, b'y');
    assert!(uart.receive_packet_is_available(&vtty));
    assert_eq!(uart.tick(2 * MS, &mut vtty), vec![]);
    assert_eq!(uart.lsr & 0x01, 0x01);
    assert_eq!(uart.receive_instant, 1_041_666);
    assert_eq!(vtty.buffer.len(), 1);
    assert_eq!(uart.read_access(5, 2 * MS), Some(0x61));
    assert_eq!(uart.read_access(0, 2 * MS), Some(b'x'));
    assert_eq!(uart.read_instant, 2 * MS);
    assert_eq!(uart.lsr & 0x01, 0);
    assert_eq!(uart.read_access(0, 2 * MS), Some(0));
    assert_eq!(uart.tick(2 * MS, &mut vtty), vec![]);
    assert_eq!(uart.lsr & 0x01, 0);
    assert_eq!(uart.tick(10 * MS, &mut vtty), vec![]);
    assert_eq!(uart.receive_instant, 10 * MS);
    assert_eq!(uart.read_access(0, 10 * MS), Some(b'y'));
    assert_eq!(vtty.buffer.len(), 0);
    assert!(!uart.receive_packet_is_available(&vtty));
    assert!(!uart.receive_packet(&mut vtty));
}

#[test]
fn unread_byte_in_16450_mode_is_overrun() {
    let mut uart = wired_uart();
    let mut vtty = wired_console();
    vtty_store(&mut vtty, b'x');
    vtty_store(&mut vtty, b'y');
    uart.tick(10 * MS, &mut vtty);
    uart.tick(20 * MS, &mut vtty);
    assert_eq!(uart.lsr & 0x03, 0x03);
    assert_eq!(uart.read_access(5, 20 * MS), Some(0x63));
    assert_eq!(uart.lsr & 0x02, 0);
    assert_eq!(uart.read_access(0, 20 * MS), Some(b'y'));
}

#[test]
fn fifo_mode_queues_received_bytes() {
    let mut uart = wired_uart();
    let mut vtty = wired_console();
    uart.write_access(2, 0x01, 0, &mut vtty);
    for c in 0..20u8 {
        vtty_store(&mut vtty, c);
    }
    for i in 1..=20u64 {
        uart.tick(i * 10 * MS, &mut vtty);
    }
    assert_eq!(uart.lsr & 0x02, 0x02);
    for c in 0..16u8 {
        assert_eq!(uart.read_access(0, 300 * MS), Some(c));
    }
    assert_eq!(uart.read_access(0, 300 * MS), Some(0));
    assert_eq!(vtty.buffer.len(), 0);
}

#[test]
fn received_data_raises_the_interrupt_when_enabled() {
    let mut uart = wired_uart();
    let mut vtty = wired_console();
    uart.write_access(1, 0x01, 0, &mut vtty);
    uart.tick(0, &mut vtty);
    assert!(!uart.has_interrupt());
    vtty_store(&mut vtty, b'x');
    uart.tick(10 * MS, &mut vtty);
    assert!(uart.has_interrupt());
    assert_eq!(uart.read_access(2, 10 * MS), Some(0x04));
    assert_eq!(uart.read_access(0, 10 * MS), Some(b'x'));
    uart.tick(10 * MS, &mut vtty);
    assert!(!uart.has_interrupt());
    assert_eq!(uart.iir, 0x01);
}

#[test]
fn interrupt_causes_go_by_priority() {
    let mut uart = Uart::new(0);
    uart.ier = 0x0f;
    uart.lsr = 0x20;
    uart.msr = 0x01;
    uart.interrupt_control_logic(0);
    assert_eq!(uart.iir, 0x02); // transmitter holding register empty
    uart.lsr = 0x21;
    uart.interrupt_control_logic(0);
    assert_eq!(uart.iir, 0x04); // received data available
    uart.lsr = 0x23;
    uart.interrupt_control_logic(0);
    assert_eq!(uart.iir, 0x06); // receiver line status
    uart.lsr = 0x00;
    uart.interrupt_control_logic(0);
    assert_eq!(uart.iir, 0x00); // modem status
    uart.msr = 0x00;
    uart.interrupt_control_logic(0);
    assert_eq!(uart.iir, 0x01); // none
    uart.ier = 0x00;
    uart.lsr = 0xff;
    uart.msr = 0xff;
    uart.interrupt_control_logic(0);
    assert_eq!(uart.iir, 0x01);
}

#[test]
fn fifo_trigger_level_and_timeout() {
    let mut uart = Uart::new(0);
    uart.ier = 0x01;
    uart.fcr = 0x41; // fifo, trigger at 4
    for c in 0..3 {
        uart.receiver.push(Packet::Data(c));
    }
    uart.interrupt_control_logic(0);
    assert_eq!(uart.iir, 0xc1);
    uart.interrupt_control_logic(4 * 1_041_666 - 1);
    assert_eq!(uart.iir, 0xc1);
    uart.interrupt_control_logic(4 * 1_041_666);
    assert_eq!(uart.iir, 0xcc); // fifo timeout
    uart.read_instant = 1;
    uart.interrupt_control_logic(4 * 1_041_666);
    assert_eq!(uart.iir, 0xc1);
    uart.receiver.push(Packet::Data(3));
    uart.interrupt_control_logic(0);
    assert_eq!(uart.iir, 0xc4); // received data available
    for (fcr, trigger) in [(0x01u8, 1usize), (0x41, 4), (0x81, 8), (0xc1, 14)] {
        let mut uart = Uart::new(0);
        uart.ier = 0x01;
        uart.fcr = fcr;
        for c in 0..trigger - 1 {
            uart.receiver.push(Packet::Data(c as u8));
        }
        uart.interrupt_control_logic(0);
        assert_eq!(uart.iir, 0xc1);
        uart.receiver.push(Packet::Data(0));
        uart.interrupt_control_logic(0);
        assert_eq!(uart.iir, 0xc4);
    }
}

#[test]
fn error_packets_show_in_the_line_status() {
    let mut uart = Uart::new(0);
    uart.receiver.push(Packet::Data(1));
    uart.receiver.push(Packet::ParityError(2));
    uart.receiver.push(Packet::FrameError);
    uart.receiver.push(Packet::Data(4));
    assert_eq!(uart.read_access(5, 0), Some(0x60));
    assert_eq!(uart.lsr, 0xe0);
    assert_eq!(uart.read_access(0, 0), Some(1));
    assert_eq!(uart.lsr, 0xe5);
    assert_eq!(uart.read_access(0, 0), Some(2));
    assert_eq!(uart.lsr, 0xe9);
    assert_eq!(uart.read_access(0, 0), Some(0));
    assert_eq!(uart.lsr, 0xe1);
    assert_eq!(uart.read_access(5, 0), Some(0xe1));
    assert_eq!(uart.lsr, 0x61);
    assert_eq!(uart.read_access(0, 0), Some(4));
    assert_eq!(uart.lsr, 0x60);
}

#[test]
fn loopback_returns_what_was_written() {
    let mut uart = Uart::new(0);
    let mut vtty = Vtty::new();
    uart.write_access(4, 0x10, 0, &mut vtty);
    uart.write_access(0, b'L', 10 * MS, &mut vtty);
    assert_eq!(uart.tick(10 * MS, &mut vtty), vec![]);
    assert_eq!(uart.transmitter.transmit_byte, Some(b'L'));
    assert!(uart.receive_packet_is_available(&vtty));
    assert_eq!(uart.tick(20 * MS, &mut vtty), vec![]);
    assert_eq!(uart.transmitter.transmit_byte, None);
    assert_eq!(uart.read_access(0, 20 * MS), Some(b'L'));
    assert!(vtty.replay_buffer.is_empty());
}

#[test]
fn chip_has_two_channels_of_eight_registers() {
    let mut chip = Ns16552::new(0);
    let mut vtty0 = Vtty::new();
    let mut vtty1 = Vtty::new();
    assert_eq!(chip.vm, None);
    assert_eq!(chip.irq, 0);
    let (done, plan) = chip.write_access(7, 0x11, 0, &mut vtty0, &mut vtty1);
    assert_eq!(done, Some(()));
    assert_eq!((plan.irq, plan.console0, plan.console1), (None, vec![], vec![]));
    let (done, _) = chip.write_access(15, 0x22, 0, &mut vtty0, &mut vtty1);
    assert_eq!(done, Some(()));
    assert_eq!(chip.read_access(7, 0, &mut vtty0, &mut vtty1).0, Some(0x11));
    assert_eq!(chip.read_access(15, 0, &mut vtty0, &mut vtty1).0, Some(0x22));
    assert_eq!(chip.read_access(16, 0, &mut vtty0, &mut vtty1).0, None);
    assert_eq!(chip.write_access(16, 0, 0, &mut vtty0, &mut vtty1).0, None);
    assert_eq!(chip.write_access(5, 0, 0, &mut vtty0, &mut vtty1).0, None);
    assert_eq!(chip.write_access(14, 0, 0, &mut vtty0, &mut vtty1).0, None);
    assert_eq!((chip.uart[0].scr, chip.uart[1].scr), (0x11, 0x22));
}

#[test]
fn concurrent_write_reaches_both_channels() {
    let mut chip = Ns16552::new(0);
    let mut vtty0 = Vtty::new();
    let mut vtty1 = Vtty::new();
    chip.write_access(3, 0x83, 0, &mut vtty0, &mut vtty1); // DLAB of channel 0
    chip.write_access(2, 0x01, 0, &mut vtty0, &mut vtty1); // AFR: concurrent write
    assert_eq!((chip.uart[0].afr, chip.uart[1].afr), (0x01, 0x01));
    chip.write_access(3, 0x03, 0, &mut vtty0, &mut vtty1);
    assert_eq!((chip.uart[0].lcr, chip.uart[1].lcr), (0x03, 0x03));
    chip.write_access(7, 0x5a, 0, &mut vtty0, &mut vtty1);
    assert_eq!((chip.uart[0].scr, chip.uart[1].scr), (0x5a, 0x5a));
    chip.write_access(15, 0xa5, 0, &mut vtty0, &mut vtty1);
    assert_eq!((chip.uart[0].scr, chip.uart[1].scr), (0xa5, 0xa5));
}

#[test]
fn chip_interrupt_follows_its_channels() {
    let mut chip = Ns16552::new_from_c(Some(9), 4, Some(1), false, None, false, 0);
    let mut vtty0 = wired_console();
    let mut vtty1 = Vtty::new();
    assert_eq!((chip.vm, chip.irq), (Some(9), 4));
    assert_eq!(chip.uart[0].vtty, Some(1));
    assert_eq!(chip.uart[1].vtty, None);
    assert_eq!(chip.uart[0].modem, Modem { cts: true, dsr: false, ri: false, dcd: true });
    assert_eq!(chip.shared_interrupt_control_logic(0), Some(false));
    let (_, plan) = chip.write_access(1, 0x02, 0, &mut vtty0, &mut vtty1);
    assert_eq!(plan.irq, Some(true)); // transmitter holding register empty
    let (value, plan) = chip.read_access(2, 0, &mut vtty0, &mut vtty1);
    assert_eq!(value, Some(0x02));
    assert_eq!(plan.irq, Some(true));
    let (_, plan) = chip.write_access(1, 0x00, 0, &mut vtty0, &mut vtty1);
    assert_eq!(plan.irq, Some(false));
    let plan = chip.tick(MS, &mut vtty0, &mut vtty1);
    assert_eq!((plan.irq, plan.console0, plan.console1), (Some(false), vec![], vec![]));
    let (_, plan) = chip.write_access(9, 0x02, 0, &mut vtty0, &mut vtty1);
    assert_eq!(plan.irq, Some(true));
}

#[test]
fn chip_puts_output_on_the_console_of_its_channel() {
    let mut chip = Ns16552::new_from_c(None, 0, Some(1), false, Some(2), false, 0);
    let mut vtty0 = wired_console();
    let mut vtty1 = wired_console();
    vtty1.fd_pool = vec![20];
    chip.write_access(8, b'b', 10 * MS, &mut vtty0, &mut vtty1);
    let plan = chip.tick(10 * MS, &mut vtty0, &mut vtty1);
    assert_eq!(plan.irq, None);
    assert_eq!(plan.console0, vec![]);
    assert_eq!(plan.console1, vec![]);
    assert_eq!(vtty1.replay_buffer.make_contiguous().to_vec(), b"b".to_vec());
    assert!(vtty0.replay_buffer.is_empty());
    let (_, plan) = chip.write_access(0, b'a', 20 * MS, &mut vtty0, &mut vtty1);
    assert_eq!(plan.console0, vec![VttyAction::Send { fd: 10, data: vec![b'a'] }]);
    assert_eq!(plan.console1, vec![]);
}
