use std::io::{Read, Write};
use std::time::{Duration, Instant};

use serial_ext::serial::{host_count, DeviceErrorKind, Diagnostic, Operation, Serial, SerialError};
use serialport::{SerialPort, TTYPort};

const MISSING: &str = "/dev/no-such-serial-device";

fn is_not_open(d: &Diagnostic, op: Operation) -> bool {
    d.operation == op && matches!(d.error, SerialError::NotOpen)
}

/// A pseudo-terminal pair, with the library's port opened on its secondary
/// side.
fn open_pair() -> (TTYPort, TTYPort, Serial) {
    let (primary, secondary) = TTYPort::pair().expect("a pseudo-terminal pair");
    let name = secondary.name().expect("the secondary side has a name");
    let mut s = Serial::new();
    assert!(s.open(&name, 9600), "opening the secondary side");
    (primary, secondary, s)
}

fn wait_for_input(s: &mut Serial, n: i32) {
    let start = Instant::now();
    while s.available() < n && start.elapsed() < Duration::from_secs(2) {}
}

#[test]
fn new_port_is_closed() {
    let mut s = Serial::new();
    assert!(!s.opened());
    assert!(s.take_diagnostics().is_empty());
}

#[test]
fn closed_accessors_return_defaults() {
    let mut s = Serial::new();
    assert!(!s.get_cts());
    assert!(!s.get_dsr());
    assert!(!s.get_ri());
    assert!(!s.get_cd());
    assert_eq!(s.available(), 0);
    assert_eq!(s.remains(), 0);
    s.set_rts(true);
    s.set_dtr(false);
    assert!(!s.set_baud_rate(115200));
    assert_eq!(s.write(b"abc"), -1);
    assert!(s.read().is_empty());
    assert!(s.read_exact(4).is_empty());
    let ops = [
        Operation::GetCts,
        Operation::GetDsr,
        Operation::GetRi,
        Operation::GetCd,
        Operation::Available,
        Operation::Remains,
        Operation::SetRts,
        Operation::SetDtr,
        Operation::SetBaudRate,
        Operation::Write,
        Operation::Read,
        Operation::ReadExact,
    ];
    let log = s.take_diagnostics();
    assert_eq!(log.len(), ops.len());
    for (d, op) in log.iter().zip(ops.iter()) {
        assert!(is_not_open(d, *op));
    }
    assert!(s.take_diagnostics().is_empty());
}

#[test]
fn closed_try_forms_fail_not_open() {
    let mut s = Serial::new();
    assert!(matches!(s.try_get_cts(), Err(SerialError::NotOpen)));
    assert!(matches!(s.try_available(), Err(SerialError::NotOpen)));
    assert!(matches!(s.try_write(b""), Err(SerialError::NotOpen)));
    assert!(matches!(s.try_read_exact(0), Err(SerialError::NotOpen)));
    assert!(matches!(s.try_read_up_to(8), Err(SerialError::NotOpen)));
    assert!(s.take_diagnostics().is_empty());
}

#[test]
fn open_missing_device_fails_and_stays_closed() {
    let mut s = Serial::new();
    assert!(!s.open(MISSING, 9600));
    assert!(!s.opened());
    assert_eq!(s.available(), 0);
    let log = s.take_diagnostics();
    assert_eq!(log.len(), 2);
    assert_eq!(log[0].operation, Operation::Open);
    assert!(matches!(log[0].error, SerialError::Device { .. }));
    assert!(is_not_open(&log[1], Operation::Available));
}

#[test]
fn try_open_missing_device_reports_device_error() {
    let mut s = Serial::new();
    match s.try_open(MISSING, 9600) {
        Err(SerialError::Device { description, .. }) => assert!(!description.is_empty()),
        _ => panic!("opening a missing device must fail with a device error"),
    }
    assert!(!s.opened());
}

#[test]
fn close_releases_the_port() {
    let (_primary, _secondary, mut s) = open_pair();
    assert!(s.opened());
    s.close();
    assert!(!s.opened());
    assert_eq!(s.write(b"x"), -1);
}

#[test]
fn baud_rate_change_keeps_port_open() {
    let (_primary, _secondary, mut s) = open_pair();
    assert!(s.set_baud_rate(115200));
    assert!(s.opened());
    assert!(s.take_diagnostics().is_empty());
}

#[test]
fn empty_write_returns_zero() {
    let (_primary, _secondary, mut s) = open_pair();
    assert_eq!(s.write(b""), 0);
    assert!(s.take_diagnostics().is_empty());
}

#[test]
fn read_without_input_is_empty_and_prompt() {
    let (_primary, _secondary, mut s) = open_pair();
    let start = Instant::now();
    assert!(s.read().is_empty());
    assert!(start.elapsed() < Duration::from_secs(1));
    assert!(s.take_diagnostics().is_empty());
}

#[test]
fn read_exact_zero_is_empty_and_prompt() {
    let (_primary, _secondary, mut s) = open_pair();
    let start = Instant::now();
    assert!(s.read_exact(0).is_empty());
    assert!(start.elapsed() < Duration::from_secs(1));
    assert!(s.take_diagnostics().is_empty());
}

#[test]
fn written_bytes_reach_the_other_side() {
    let (mut primary, _secondary, mut s) = open_pair();
    assert_eq!(s.write(b"hello"), 5);
    let mut buf = [0u8; 5];
    primary.read_exact(&mut buf).unwrap();
    assert_eq!(&buf, b"hello");
}

#[test]
fn bytes_from_the_other_side_round_trip() {
    let (mut primary, _secondary, mut s) = open_pair();
    primary.write_all(b"ping!").unwrap();
    wait_for_input(&mut s, 5);
    assert_eq!(s.available(), 5);
    assert_eq!(s.read_exact(5), b"ping!".to_vec());
    primary.write_all(b"abc").unwrap();
    wait_for_input(&mut s, 3);
    assert_eq!(s.read(), b"abc".to_vec());
    assert!(s.take_diagnostics().is_empty());
}

#[test]
fn read_up_to_caps_the_count() {
    let (mut primary, _secondary, mut s) = open_pair();
    primary.write_all(b"abcdef").unwrap();
    wait_for_input(&mut s, 6);
    let first = s.try_read_up_to(4).ok().unwrap();
    assert_eq!(first, b"abcd".to_vec());
    assert!(s.try_read_up_to(0).ok().unwrap().is_empty());
}

#[test]
fn read_exact_times_out_empty() {
    let (_primary, _secondary, mut s) = open_pair();
    assert!(s.read_exact(3).is_empty());
    let log = s.take_diagnostics();
    assert_eq!(log.len(), 1);
    assert_eq!(log[0].operation, Operation::ReadExact);
    assert!(matches!(log[0].error, SerialError::Device { .. }));
    assert!(s.opened());
}

#[test]
fn reopen_binds_a_usable_port() {
    let (mut primary, secondary, mut s) = open_pair();
    let name = secondary.name().unwrap();
    drop(secondary);
    assert!(s.open(&name, 9600));
    assert!(s.opened());
    assert_eq!(s.write(b"ok"), 2);
    let mut buf = [0u8; 2];
    primary.read_exact(&mut buf).unwrap();
    assert_eq!(&buf, b"ok");
}

#[test]
fn failed_open_keeps_previous_port() {
    let (_primary, _secondary, mut s) = open_pair();
    assert!(!s.open(MISSING, 9600));
    assert!(s.opened());
    assert_eq!(s.write(b"still"), 5);
    let log = s.take_diagnostics();
    assert_eq!(log.len(), 1);
    assert_eq!(log[0].operation, Operation::Open);
}

#[test]
fn negative_read_size_fails_cleanly() {
    let (_primary, _secondary, mut s) = open_pair();
    assert!(s.read_exact(-1).is_empty());
    let log = s.take_diagnostics();
    assert_eq!(log.len(), 1);
    assert_eq!(log[0].operation, Operation::ReadExact);
    assert!(matches!(log[0].error, SerialError::NegativeSize));
    assert!(s.opened());
    let mut closed = Serial::new();
    assert!(closed.read_exact(-5).is_empty());
    assert!(is_not_open(&closed.take_diagnostics()[0], Operation::ReadExact));
}

#[test]
fn settle_passes_success_through() {
    let mut s = Serial::new();
    assert!(s.settle(Operation::GetCts, Ok(true), false));
    assert_eq!(s.settle(Operation::Write, Ok(7), -1), 7);
    assert!(s.take_diagnostics().is_empty());
}

#[test]
fn settle_records_failure_and_returns_default() {
    let mut s = Serial::new();
    let e = SerialError::Device { kind: DeviceErrorKind::Io, description: "timed out".to_string() };
    assert_eq!(s.settle(Operation::Write, Err(e), -1), -1);
    assert_eq!(s.settle(Operation::Available, Err(SerialError::NotOpen), 0), 0);
    let log = s.take_diagnostics();
    assert_eq!(log.len(), 2);
    assert_eq!(log[0].operation, Operation::Write);
    match &log[0].error {
        SerialError::Device { kind, description } => {
            assert_eq!(*kind, DeviceErrorKind::Io);
            assert_eq!(description, "timed out");
        }
        _ => panic!("expected a device error"),
    }
    assert!(is_not_open(&log[1], Operation::Available));
}

#[test]
fn control_lines_on_open_port_do_not_close_it() {
    let (_primary, _secondary, mut s) = open_pair();
    s.set_rts(true);
    s.set_dtr(true);
    let _ = s.get_cts();
    let _ = s.get_dsr();
    let _ = s.get_ri();
    let _ = s.get_cd();
    let _ = s.remains();
    assert!(s.opened());
    for d in s.take_diagnostics() {
        assert!(matches!(d.error, SerialError::Device { .. }));
    }
}

#[test]
fn host_count_saturates() {
    assert_eq!(host_count(0), 0);
    assert_eq!(host_count(17), 17);
    assert_eq!(host_count(i32::MAX as u32), i32::MAX);
    assert_eq!(host_count(u32::MAX), i32::MAX);
}

#[test]
fn read_pending_follows_the_pending_answer() {
    let (mut primary, _secondary, mut s) = open_pair();
    assert!(s.try_read_pending(Ok(0)).ok().unwrap().is_empty());
    let e = SerialError::Device { kind: DeviceErrorKind::Io, description: "ioctl".to_string() };
    match s.try_read_pending(Err(e)) {
        Err(SerialError::Device { description, .. }) => assert_eq!(description, "ioctl"),
        _ => panic!("the failed answer must be handed on"),
    }
    primary.write_all(b"xyz").unwrap();
    wait_for_input(&mut s, 3);
    assert_eq!(s.try_read_pending(Ok(2)).ok().unwrap(), b"xy".to_vec());
    assert!(s.take_diagnostics().is_empty());
}
