use minux::console::{console_session, console_step, ConsoleState};
use minux::memlayout::UART0;
use minux::uart::UartDriver;

fn device_with_input(input: &[u8]) -> UartDriver {
    let mut uart = UartDriver::new(UART0 as usize);
    uart.init();
    uart.tx_log.clear();
    uart.rx_fifo = input.to_vec();
    uart
}

#[test]
fn scenario_arrow_up() {
    let mut uart = device_with_input(&[0x1B, 0x5B, 0x41]);
    let (state, exited) = console_session(&mut uart);
    assert_eq!(uart.tx_log, b"up\r\n".to_vec());
    assert_eq!(state, ConsoleState::Normal);
    assert!(!exited);
}

#[test]
fn arrow_labels_down_right_left() {
    let mut uart = device_with_input(&[0x1B, 0x5B, 0x42, 0x1B, 0x5B, 0x43, 0x1B, 0x5B, 0x44]);
    let (state, exited) = console_session(&mut uart);
    assert_eq!(uart.tx_log, b"down\r\nright\r\nleft\r\n".to_vec());
    assert_eq!(state, ConsoleState::Normal);
    assert!(!exited);
}

#[test]
fn scenario_unknown_escape_silent() {
    let mut uart = device_with_input(&[0x1B, 0x58]);
    let (state, exited) = console_session(&mut uart);
    assert_eq!(uart.tx_log, b"".to_vec());
    assert_eq!(state, ConsoleState::Normal);
    assert!(!exited);
}

#[test]
fn scenario_echo_then_erase() {
    let mut uart = device_with_input(&[0x41, 0x08]);
    let (state, exited) = console_session(&mut uart);
    assert_eq!(uart.tx_log, b"A\x08 \x08".to_vec());
    assert_eq!(state, ConsoleState::Normal);
    assert!(!exited);
}

#[test]
fn delete_erases_like_backspace() {
    let mut uart = device_with_input(&[0x42, 0x7F]);
    let (_, exited) = console_session(&mut uart);
    assert_eq!(uart.tx_log, b"B\x08 \x08".to_vec());
    assert!(!exited);
}

#[test]
fn scenario_ctrl_c_terminates() {
    let mut uart = device_with_input(&[0x03]);
    let (state, exited) = console_session(&mut uart);
    assert_eq!(uart.tx_log, b"\r\n^C: minux exiting\r\n".to_vec());
    assert_eq!(state, ConsoleState::Normal);
    assert!(exited);
}

#[test]
fn ctrl_c_leaves_trailing_input_unconsumed() {
    let mut uart = device_with_input(&[0x03, 0x41, 0x42]);
    let (_, exited) = console_session(&mut uart);
    assert!(exited);
    assert_eq!(uart.rx_fifo, vec![0x41, 0x42]);
    assert_eq!(uart.tx_log, b"\r\n^C: minux exiting\r\n".to_vec());
}

#[test]
fn ctrl_c_in_escape_seen_is_absorbed() {
    let mut uart = device_with_input(&[0x1B, 0x03, 0x41]);
    let (state, exited) = console_session(&mut uart);
    assert!(!exited);
    assert_eq!(uart.tx_log, b"A".to_vec());
    assert_eq!(state, ConsoleState::Normal);
}

#[test]
fn ctrl_c_in_escape_bracket_seen_is_absorbed() {
    let mut uart = device_with_input(&[0x1B, 0x5B, 0x03, 0x42]);
    let (state, exited) = console_session(&mut uart);
    assert!(!exited);
    assert_eq!(uart.tx_log, b"B".to_vec());
    assert_eq!(state, ConsoleState::Normal);
}

#[test]
fn printable_bytes_echo_exactly_once() {
    let mut uart = device_with_input(b"hello, world!");
    let (state, exited) = console_session(&mut uart);
    assert_eq!(uart.tx_log, b"hello, world!".to_vec());
    assert_eq!(state, ConsoleState::Normal);
    assert!(!exited);
}

#[test]
fn enter_echoes_newline_and_prompt() {
    let mut uart = device_with_input(&[0x0D]);
    let (_, exited) = console_session(&mut uart);
    assert_eq!(uart.tx_log, b"\r\n~ ".to_vec());
    assert!(!exited);
}

#[test]
fn busy_transmitter_drops_session_output() {
    let mut uart = device_with_input(&[0x41, 0x0D]);
    uart.tx_ready = false;
    let (state, exited) = console_session(&mut uart);
    assert_eq!(uart.tx_log, b"".to_vec());
    assert_eq!(state, ConsoleState::Normal);
    assert!(!exited);
}

#[test]
fn empty_input_polls_out_immediately() {
    let mut uart = device_with_input(&[]);
    let (state, exited) = console_session(&mut uart);
    assert_eq!(uart.tx_log, b"".to_vec());
    assert_eq!(uart.rx_fifo, Vec::<u8>::new());
    assert_eq!(state, ConsoleState::Normal);
    assert!(!exited);
}

#[test]
fn session_without_ctrl_c_consumes_all_input() {
    let mut uart = device_with_input(b"abc\x1B[Axyz");
    let (state, exited) = console_session(&mut uart);
    assert!(!exited);
    assert_eq!(uart.rx_fifo, Vec::<u8>::new());
    assert_eq!(uart.tx_log, b"abcup\r\nxyz".to_vec());
    assert_eq!(state, ConsoleState::Normal);
}

#[test]
fn step_escape_opens_sequence_silently() {
    let mut out: Vec<u8> = Vec::new();
    let (state, quit) = console_step(ConsoleState::Normal, 0x1B, &mut out);
    assert_eq!(state, ConsoleState::EscapeSeen);
    assert!(!quit);
    assert_eq!(out, b"".to_vec());
}

#[test]
fn step_bracket_continues_sequence() {
    let mut out: Vec<u8> = Vec::new();
    let (state, quit) = console_step(ConsoleState::EscapeSeen, 0x5B, &mut out);
    assert_eq!(state, ConsoleState::EscapeBracketSeen);
    assert!(!quit);
    assert_eq!(out, b"".to_vec());
}

#[test]
fn step_malformed_sequences_reset_to_normal() {
    let mut out: Vec<u8> = Vec::new();
    let (state, quit) = console_step(ConsoleState::EscapeSeen, 0x41, &mut out);
    assert_eq!(state, ConsoleState::Normal);
    assert!(!quit);
    assert_eq!(out, b"".to_vec());

    let (state, quit) = console_step(ConsoleState::EscapeBracketSeen, 0x58, &mut out);
    assert_eq!(state, ConsoleState::Normal);
    assert!(!quit);
    assert_eq!(out, b"".to_vec());
}

#[test]
fn step_ctrl_c_exits_only_from_normal() {
    let mut out: Vec<u8> = Vec::new();
    let (_, quit) = console_step(ConsoleState::Normal, 0x03, &mut out);
    assert!(quit);

    let (state, quit) = console_step(ConsoleState::EscapeSeen, 0x03, &mut out);
    assert!(!quit);
    assert_eq!(state, ConsoleState::Normal);

    let (state, quit) = console_step(ConsoleState::EscapeBracketSeen, 0x03, &mut out);
    assert!(!quit);
    assert_eq!(state, ConsoleState::Normal);
}
