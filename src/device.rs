//! The calls into the `serialport` crate that the library relies on. Each one
//! is trusted: its contract states only what the crate's source shows. The
//! transfer and control-line calls on an open handle work through its file
//! descriptor and leave the `TTYPort` value itself as it was.

use crate::serial::{DeviceErrorKind, SerialError};
use vstd::prelude::*;

verus! {

/// The native port handle of `serialport` on this platform: an open device
/// file, closed when the value is dropped.
#[verifier::external_type_specification]
#[verifier::external_body]
pub struct ExTtyPort(serialport::TTYPort);

/// The error type of `serialport`.
#[verifier::external_type_specification]
#[verifier::external_body]
pub struct ExDeviceError(serialport::Error);

/// Relies on `serialport::new(..).open_native()`: opens the named device at
/// the given baud rate with 8 data bits, no parity and 1 stop bit.
#[verifier::external_body]
pub(crate) fn open_native(name: &str, baud_rate: u32) -> Result<serialport::TTYPort, serialport::Error> {
    serialport::new(name, baud_rate).open_native()
}

/// Relies on `serialport::Error::kind` and its `description` field: the
/// category and the text of a device error.
#[verifier::external_body]
pub(crate) fn device_error(e: serialport::Error) -> (r: SerialError)
    ensures
        r is Device,
{
    let kind = match e.kind() {
        serialport::ErrorKind::NoDevice => DeviceErrorKind::NoDevice,
        serialport::ErrorKind::InvalidInput => DeviceErrorKind::InvalidInput,
        serialport::ErrorKind::Unknown => DeviceErrorKind::Unknown,
        serialport::ErrorKind::Io(_) => DeviceErrorKind::Io,
    };
    SerialError::Device { kind, description: e.description }
}

/// Relies on `SerialPort::set_baud_rate` of `TTYPort`: applies a new baud
/// rate to the live handle.
#[verifier::external_body]
pub(crate) fn set_baud_rate(p: &mut serialport::TTYPort, baud_rate: u32) -> Result<(), serialport::Error> {
    serialport::SerialPort::set_baud_rate(p, baud_rate)
}

/// Relies on `io::Write::write` of `TTYPort`: writes a prefix of `data` and
/// returns its length, which is at most the length of `data`.
#[verifier::external_body]
pub(crate) fn write(p: &mut serialport::TTYPort, data: &[u8]) -> (r: Result<usize, serialport::Error>)
    ensures
        *final(p) == *old(p),
        r matches Ok(n) ==> n <= data@.len(),
{
    std::io::Write::write(p, data).map_err(serialport::Error::from)
}

/// Relies on `io::Read::read` of `TTYPort`: fills a prefix of `buf` and
/// returns its length, which is at most the length of `buf`.
#[verifier::external_body]
pub(crate) fn read(p: &mut serialport::TTYPort, buf: &mut Vec<u8>) -> (r: Result<usize, serialport::Error>)
    ensures
        *final(p) == *old(p),
        final(buf)@.len() == old(buf)@.len(),
        r matches Ok(n) ==> n <= old(buf)@.len(),
{
    std::io::Read::read(p, buf.as_mut_slice()).map_err(serialport::Error::from)
}

/// Relies on `io::Read::read_exact` of `TTYPort`: fills the whole of `buf`,
/// or fails.
#[verifier::external_body]
pub(crate) fn read_exact(p: &mut serialport::TTYPort, buf: &mut Vec<u8>) -> (r: Result<(), serialport::Error>)
    ensures
        *final(p) == *old(p),
        final(buf)@.len() == old(buf)@.len(),
{
    std::io::Read::read_exact(p, buf.as_mut_slice()).map_err(serialport::Error::from)
}

/// Relies on `SerialPort::write_request_to_send` of `TTYPort`: sets the RTS line.
#[verifier::external_body]
pub(crate) fn write_request_to_send(p: &mut serialport::TTYPort, level: bool) -> (r: Result<(), serialport::Error>)
    ensures
        *final(p) == *old(p),
{
    serialport::SerialPort::write_request_to_send(p, level)
}

/// Relies on `SerialPort::write_data_terminal_ready` of `TTYPort`: sets the DTR line.
#[verifier::external_body]
pub(crate) fn write_data_terminal_ready(p: &mut serialport::TTYPort, level: bool) -> (r: Result<(), serialport::Error>)
    ensures
        *final(p) == *old(p),
{
    serialport::SerialPort::write_data_terminal_ready(p, level)
}

/// Relies on `SerialPort::read_clear_to_send` of `TTYPort`: reads the CTS line.
#[verifier::external_body]
pub(crate) fn read_clear_to_send(p: &mut serialport::TTYPort) -> (r: Result<bool, serialport::Error>)
    ensures
        *final(p) == *old(p),
{
    serialport::SerialPort::read_clear_to_send(p)
}

/// Relies on `SerialPort::read_data_set_ready` of `TTYPort`: reads the DSR line.
#[verifier::external_body]
pub(crate) fn read_data_set_ready(p: &mut serialport::TTYPort) -> (r: Result<bool, serialport::Error>)
    ensures
        *final(p) == *old(p),
{
    serialport::SerialPort::read_data_set_ready(p)
}

/// Relies on `SerialPort::read_ring_indicator` of `TTYPort`: reads the RI line.
#[verifier::external_body]
pub(crate) fn read_ring_indicator(p: &mut serialport::TTYPort) -> (r: Result<bool, serialport::Error>)
    ensures
        *final(p) == *old(p),
{
    serialport::SerialPort::read_ring_indicator(p)
}

/// Relies on `SerialPort::read_carrier_detect` of `TTYPort`: reads the CD line.
#[verifier::external_body]
pub(crate) fn read_carrier_detect(p: &mut serialport::TTYPort) -> (r: Result<bool, serialport::Error>)
    ensures
        *final(p) == *old(p),
{
    serialport::SerialPort::read_carrier_detect(p)
}

/// Relies on `SerialPort::bytes_to_read` of `TTYPort`: the number of bytes
/// in the input buffer.
#[verifier::external_body]
pub(crate) fn bytes_to_read(p: &serialport::TTYPort) -> Result<u32, serialport::Error> {
    serialport::SerialPort::bytes_to_read(p)
}

/// Relies on `SerialPort::bytes_to_write` of `TTYPort`: the number of bytes
/// in the output buffer.
#[verifier::external_body]
pub(crate) fn bytes_to_write(p: &serialport::TTYPort) -> Result<u32, serialport::Error> {
    serialport::SerialPort::bytes_to_write(p)
}

} // verus!
