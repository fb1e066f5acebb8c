use oxos::console::{decode_console_byte, echo_once, echo_poll_run, getchar, putchar, Eid, StdOut};
use oxos::sim::SimTransport;

#[test]
fn extension_ids_match_the_call_abi() {
    assert_eq!(Eid::CONSOLE_PUTCHAR, 1);
    assert_eq!(Eid::CONSOLE_GETCHAR, 2);
    assert_eq!(Eid::SHUTDOWN, 8);
}

#[test]
fn decode_accepts_bytes_and_rejects_the_sentinel() {
    assert_eq!(decode_console_byte(0), Some(0));
    assert_eq!(decode_console_byte(65), Some(65));
    assert_eq!(decode_console_byte(255), Some(255));
    assert_eq!(decode_console_byte(256), None);
    assert_eq!(decode_console_byte(usize::MAX), None);
}

#[test]
fn echo_skips_zero_bytes_and_stops_on_no_data() {
    let mut t = SimTransport::new(vec![0, 72, 105]);
    assert_eq!(echo_once(&mut t), Some(0));
    assert_eq!(echo_once(&mut t), Some(72));
    assert_eq!(echo_once(&mut t), Some(105));
    assert_eq!(echo_once(&mut t), None);
    // the zero byte was treated as "no actual character" and not echoed
    assert_eq!(t.output().as_slice(), b"Hi");
}

#[test]
fn echo_run_stops_on_first_empty_poll() {
    let mut t = SimTransport::new(vec![65, 0, 66]);
    let polls = echo_poll_run(&mut t, 10);
    assert_eq!(polls, 4);
    assert_eq!(t.output().as_slice(), b"AB");
}

#[test]
fn echo_run_respects_its_bound() {
    let mut t = SimTransport::new(vec![65, 0, 66]);
    let polls = echo_poll_run(&mut t, 2);
    assert_eq!(polls, 2);
    assert_eq!(t.output().as_slice(), b"A");
    let mut u = SimTransport::new(vec![65]);
    assert_eq!(echo_poll_run(&mut u, 0), 0);
    assert!(u.output().is_empty());
}

#[test]
fn putchar_sends_and_getchar_drains_the_script() {
    let mut t = SimTransport::new(vec![7, 8]);
    putchar(&mut t, b'x');
    putchar(&mut t, b'y');
    assert_eq!(getchar(&mut t), Some(7));
    assert_eq!(getchar(&mut t), Some(8));
    assert_eq!(getchar(&mut t), None);
    assert_eq!(t.output().as_slice(), b"xy");
}

#[test]
fn write_bytes_transports_in_order() {
    let t = SimTransport::new(Vec::new());
    let mut out = StdOut::new(t);
    out.write_bytes(b"AB");
    out.write_bytes(b"");
    out.write_bytes(b"C");
    let t = out.into_transport();
    assert_eq!(t.output().as_slice(), b"ABC");
}

#[test]
fn write_str_transports_the_utf8_bytes() {
    let t = SimTransport::new(Vec::new());
    let mut out = StdOut::new(t);
    out.write_str("Hello OS!\n");
    let t = out.into_transport();
    assert_eq!(t.output().as_slice(), b"Hello OS!\n");
}

#[test]
fn write_hex_pads_and_orders_digits() {
    let t = SimTransport::new(Vec::new());
    let mut out = StdOut::new(t);
    out.write_hex(0x3000_8000, 8);
    out.write_bytes(b":");
    out.write_hex(0xAB, 4);
    out.write_bytes(b":");
    out.write_hex(0, 2);
    out.write_bytes(b":");
    out.write_hex(0x1234_5678, 0);
    let t = out.into_transport();
    assert_eq!(t.output().as_slice(), b"30008000:00ab:00:");
}

#[test]
fn both_stdout_accessors_give_a_working_facade() {
    let mut a = oxos::stdout(SimTransport::new(Vec::new()));
    a.write_str("root");
    assert_eq!(a.into_transport().output().as_slice(), b"root");

    let mut b = oxos::stdout::stdout(SimTransport::new(Vec::new()));
    b.write_str("module");
    assert_eq!(b.into_transport().output().as_slice(), b"module");
}
