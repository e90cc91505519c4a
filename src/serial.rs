//! An owned serial port: opening, configuration, byte transfer, control lines
//! and buffer queries. No failure aborts: each operation has a `try_` form that
//! returns the error, and a host-facing form that records the error as a
//! diagnostic and returns the operation's default value instead.

use crate::device;
use crate::port_info::PortDescriptor;
use vstd::prelude::*;

verus! {

/// The category of an error reported by the device layer.
#[derive(PartialEq, Eq, Structural, Clone, Copy, Debug)]
pub enum DeviceErrorKind {
    NoDevice,
    InvalidInput,
    Unknown,
    Io,
}

/// Why an operation failed.
pub enum SerialError {
    /// The operation needs an open port and none is bound.
    NotOpen,
    /// The OS or its driver refused the operation.
    Device { kind: DeviceErrorKind, description: String },
    /// A read of a negative number of bytes was asked for.
    NegativeSize,
}

/// The operations that can report a diagnostic.
#[derive(PartialEq, Eq, Structural, Clone, Copy, Debug)]
pub enum Operation {
    ListPorts,
    Open,
    SetBaudRate,
    Write,
    Read,
    ReadExact,
    SetRts,
    SetDtr,
    GetCts,
    GetDsr,
    GetRi,
    GetCd,
    Available,
    Remains,
}

/// A failure, as recorded for the host to present.
pub struct Diagnostic {
    pub operation: Operation,
    pub error: SerialError,
}

/// The diagnostic of an operation attempted while no port is open.
pub open spec fn not_open(op: Operation) -> Diagnostic {
    Diagnostic { operation: op, error: SerialError::NotOpen }
}

/// `after` is `before` with one failure of `op` appended, for a cause other
/// than a closed port.
pub open spec fn failure_logged(before: Seq<Diagnostic>, after: Seq<Diagnostic>, op: Operation) -> bool {
    &&& after.len() == before.len() + 1
    &&& after.drop_last() =~= before
    &&& after.last().operation == op
    &&& !(after.last().error is NotOpen)
}

/// How a host-facing operation `op` ends, whatever the device answered: on a
/// closed port it returns `default` and logs that the port is not open; on an
/// open port it either succeeds and logs nothing, or returns `default` and
/// logs one failure.
pub open spec fn settled<T>(
    before: Seq<Diagnostic>,
    after: Seq<Diagnostic>,
    op: Operation,
    was_open: bool,
    r: T,
    default: T,
) -> bool {
    if !was_open {
        r == default && after == before.push(not_open(op))
    } else {
        after == before || (r == default && failure_logged(before, after, op))
    }
}

/// `r` is the failure of an operation attempted while no port is open.
pub open spec fn fails_not_open<T>(r: Result<T, SerialError>) -> bool {
    r matches Err(e) && e is NotOpen
}

/// A serial port that is either closed or owns exactly one open OS handle,
/// together with the diagnostics of the failures met so far.
pub struct Serial {
    port: Option<serialport::TTYPort>,
    /// The device name that `port` was opened with.
    bound: String,
    diagnostics: Vec<Diagnostic>,
}

/// Whether `s` holds a handle opened under `name`.
pub open spec fn holds(s: Serial, name: Seq<char>) -> bool {
    s.is_open() && s.bound_name() == name
}

/// How opening `name` leaves the port. On success it is open on `name` and
/// nothing is logged. On failure one device failure is logged and the port
/// is as it was, except that a handle already open on `name` itself has been
/// released to let the device be opened again, and the port is then closed.
pub open spec fn open_outcome(before: Serial, after: Serial, name: Seq<char>, r: bool) -> bool {
    if r {
        holds(after, name) && after.log() == before.log()
    } else {
        &&& failure_logged(before.log(), after.log(), Operation::Open)
        &&& after.log().last().error is Device
        &&& if holds(before, name) {
            !after.is_open()
        } else {
            after.handle() == before.handle() && after.bound_name() == before.bound_name()
        }
    }
}

/// A byte count as the host sees it: the count itself, saturated at
/// `i32::MAX`.
pub fn host_count(n: u32) -> (r: i32)
    ensures
        r as int == if n > i32::MAX { i32::MAX as int } else { n as int },
{
    if n > i32::MAX as u32 {
        i32::MAX
    } else {
        n as i32
    }
}

/// The first `n` bytes of `buf`.
fn prefix(buf: &Vec<u8>, n: usize) -> (r: Vec<u8>)
    requires
        n <= buf@.len(),
    ensures
        r@ == buf@.subrange(0, n as int),
{
    let mut r: Vec<u8> = Vec::new();
    let mut i: usize = 0;
    while i < n
        invariant
            i <= n <= buf@.len(),
            r@ == buf@.subrange(0, i as int),
        decreases n - i,
    {
        r.push(buf[i]);
        i = i + 1;
    }
    r
}

impl Serial {
    /// The open handle, if any.
    pub closed spec fn handle(&self) -> Option<serialport::TTYPort> {
        self.port
    }

    /// The device name that the handle was opened with.
    pub closed spec fn bound_name(&self) -> Seq<char> {
        self.bound@
    }

    /// Whether a handle is bound.
    pub open spec fn is_open(&self) -> bool {
        self.handle() is Some
    }

    /// The diagnostics recorded and not yet taken.
    pub closed spec fn log(&self) -> Seq<Diagnostic> {
        self.diagnostics@
    }

    /// A closed port with no diagnostics.
    pub fn new() -> (r: Serial)
        ensures
            !r.is_open(),
            r.log() == Seq::<Diagnostic>::empty(),
    {
        Serial { port: None, bound: String::new(), diagnostics: Vec::new() }
    }

    /// Whether a handle is bound.
    pub fn opened(&self) -> (r: bool)
        ensures
            r == self.is_open(),
    {
        self.port.is_some()
    }

    /// Releases the handle, if any; the port is closed afterwards.
    pub fn close(&mut self)
        ensures
            !final(self).is_open(),
            final(self).log() == old(self).log(),
    {
        self.port = None;
    }

    /// Hands out the recorded diagnostics, oldest first, and forgets them.
    pub fn take_diagnostics(&mut self) -> (r: Vec<Diagnostic>)
        ensures
            r@ == old(self).log(),
            final(self).log() == Seq::<Diagnostic>::empty(),
            final(self).handle() == old(self).handle(),
    {
        let mut taken: Vec<Diagnostic> = Vec::new();
        std::mem::swap(&mut taken, &mut self.diagnostics);
        taken
    }

    /// Hands back the value that the host sees for an outcome of `op`: the
    /// value itself on success; on failure `default`, with the failure
    /// recorded as a diagnostic.
    pub fn settle<T>(&mut self, op: Operation, outcome: Result<T, SerialError>, default: T) -> (r: T)
        ensures
            final(self).handle() == old(self).handle(),
            final(self).bound_name() == old(self).bound_name(),
            match outcome {
                Ok(v) => r == v && final(self).log() == old(self).log(),
                Err(e) => r == default && final(self).log() == old(self).log().push(
                    Diagnostic { operation: op, error: e },
                ),
            },
    {
        match outcome {
            Ok(v) => v,
            Err(error) => {
                self.diagnostics.push(Diagnostic { operation: op, error });
                default
            },
        }
    }

    /// Opens the named device at `baud_rate`. The new handle replaces the
    /// one bound before only once it is open. A handle already open on `name`
    /// itself is released first, since the device admits one owner at a time.
    pub fn try_open(&mut self, name: &str, baud_rate: u32) -> (r: Result<(), SerialError>)
        ensures
            final(self).log() == old(self).log(),
            r is Ok ==> holds(*final(self), name@),
            r is Err ==> if holds(*old(self), name@) {
                !final(self).is_open()
            } else {
                final(self).handle() == old(self).handle() && final(self).bound_name() == old(self).bound_name()
            },
            r matches Err(e) ==> e is Device,
    {
        let requested = name.to_owned();
        if self.port.is_some() && self.bound == requested {
            self.port = None;
        }
        match device::open_native(name, baud_rate) {
            Ok(p) => {
                self.port = Some(p);
                self.bound = requested;
                Ok(())
            },
            Err(e) => Err(device::device_error(e)),
        }
    }

    /// Opens the named device at `baud_rate`, and says whether it did.
    pub fn open(&mut self, name: &str, baud_rate: u32) -> (r: bool)
        ensures
            open_outcome(*old(self), *final(self), name@, r),
    {
        let outcome = match self.try_open(name, baud_rate) {
            Ok(()) => Ok(true),
            Err(e) => Err(e),
        };
        self.settle(Operation::Open, outcome, false)
    }

    /// Reads the CTS (Clear To Send) line.
    pub fn try_get_cts(&mut self) -> (r: Result<bool, SerialError>)
        ensures
            final(self).handle() == old(self).handle(),
            final(self).log() == old(self).log(),
            !old(self).is_open() <==> fails_not_open(r),
    {
        match self.port.take() {
            Some(mut p) => {
                let r = device::read_clear_to_send(&mut p);
                self.port = Some(p);
                match r {
                    Ok(level) => Ok(level),
                    Err(e) => Err(device::device_error(e)),
                }
            },
            None => Err(SerialError::NotOpen),
        }
    }

    /// Whether the CTS (Clear To Send) line is asserted; `false` on failure.
    pub fn get_cts(&mut self) -> (r: bool)
        ensures
            final(self).handle() == old(self).handle(),
            settled(old(self).log(), final(self).log(), Operation::GetCts, old(self).is_open(), r, false),
    {
        let outcome = self.try_get_cts();
        self.settle(Operation::GetCts, outcome, false)
    }

    /// Reads the DSR (Data Set Ready) line.
    pub fn try_get_dsr(&mut self) -> (r: Result<bool, SerialError>)
        ensures
            final(self).handle() == old(self).handle(),
            final(self).log() == old(self).log(),
            !old(self).is_open() <==> fails_not_open(r),
    {
        match self.port.take() {
            Some(mut p) => {
                let r = device::read_data_set_ready(&mut p);
                self.port = Some(p);
                match r {
                    Ok(level) => Ok(level),
                    Err(e) => Err(device::device_error(e)),
                }
            },
            None => Err(SerialError::NotOpen),
        }
    }

    /// Whether the DSR (Data Set Ready) line is asserted; `false` on failure.
    pub fn get_dsr(&mut self) -> (r: bool)
        ensures
            final(self).handle() == old(self).handle(),
            settled(old(self).log(), final(self).log(), Operation::GetDsr, old(self).is_open(), r, false),
    {
        let outcome = self.try_get_dsr();
        self.settle(Operation::GetDsr, outcome, false)
    }

    /// Reads the RI (Ring Indicator) line.
    pub fn try_get_ri(&mut self) -> (r: Result<bool, SerialError>)
        ensures
            final(self).handle() == old(self).handle(),
            final(self).log() == old(self).log(),
            !old(self).is_open() <==> fails_not_open(r),
    {
        match self.port.take() {
            Some(mut p) => {
                let r = device::read_ring_indicator(&mut p);
                self.port = Some(p);
                match r {
                    Ok(level) => Ok(level),
                    Err(e) => Err(device::device_error(e)),
                }
            },
            None => Err(SerialError::NotOpen),
        }
    }

    /// Whether the RI (Ring Indicator) line is asserted; `false` on failure.
    pub fn get_ri(&mut self) -> (r: bool)
        ensures
            final(self).handle() == old(self).handle(),
            settled(old(self).log(), final(self).log(), Operation::GetRi, old(self).is_open(), r, false),
    {
        let outcome = self.try_get_ri();
        self.settle(Operation::GetRi, outcome, false)
    }

    /// Reads the CD (Carrier Detect) line.
    pub fn try_get_cd(&mut self) -> (r: Result<bool, SerialError>)
        ensures
            final(self).handle() == old(self).handle(),
            final(self).log() == old(self).log(),
            !old(self).is_open() <==> fails_not_open(r),
    {
        match self.port.take() {
            Some(mut p) => {
                let r = device::read_carrier_detect(&mut p);
                self.port = Some(p);
                match r {
                    Ok(level) => Ok(level),
                    Err(e) => Err(device::device_error(e)),
                }
            },
            None => Err(SerialError::NotOpen),
        }
    }

    /// Whether the CD (Carrier Detect) line is asserted; `false` on failure.
    pub fn get_cd(&mut self) -> (r: bool)
        ensures
            final(self).handle() == old(self).handle(),
            settled(old(self).log(), final(self).log(), Operation::GetCd, old(self).is_open(), r, false),
    {
        let outcome = self.try_get_cd();
        self.settle(Operation::GetCd, outcome, false)
    }

    /// Asserts (`true`) or clears (`false`) the RTS (Request To Send) line.
    pub fn try_set_rts(&mut self, level: bool) -> (r: Result<(), SerialError>)
        ensures
            final(self).handle() == old(self).handle(),
            final(self).log() == old(self).log(),
            !old(self).is_open() <==> fails_not_open(r),
    {
        match self.port.take() {
            Some(mut p) => {
                let r = device::write_request_to_send(&mut p, level);
                self.port = Some(p);
                match r {
                    Ok(()) => Ok(()),
                    Err(e) => Err(device::device_error(e)),
                }
            },
            None => Err(SerialError::NotOpen),
        }
    }

    /// Asserts (`true`) or clears (`false`) the RTS (Request To Send) line. Failures are only logged.
    pub fn set_rts(&mut self, level: bool)
        ensures
            final(self).handle() == old(self).handle(),
            settled(old(self).log(), final(self).log(), Operation::SetRts, old(self).is_open(), (), ()),
    {
        let outcome = self.try_set_rts(level);
        self.settle(Operation::SetRts, outcome, ())
    }

    /// Asserts (`true`) or clears (`false`) the DTR (Data Terminal Ready) line.
    pub fn try_set_dtr(&mut self, level: bool) -> (r: Result<(), SerialError>)
        ensures
            final(self).handle() == old(self).handle(),
            final(self).log() == old(self).log(),
            !old(self).is_open() <==> fails_not_open(r),
    {
        match self.port.take() {
            Some(mut p) => {
                let r = device::write_data_terminal_ready(&mut p, level);
                self.port = Some(p);
                match r {
                    Ok(()) => Ok(()),
                    Err(e) => Err(device::device_error(e)),
                }
            },
            None => Err(SerialError::NotOpen),
        }
    }

    /// Asserts (`true`) or clears (`false`) the DTR (Data Terminal Ready) line. Failures are only logged.
    pub fn set_dtr(&mut self, level: bool)
        ensures
            final(self).handle() == old(self).handle(),
            settled(old(self).log(), final(self).log(), Operation::SetDtr, old(self).is_open(), (), ()),
    {
        let outcome = self.try_set_dtr(level);
        self.settle(Operation::SetDtr, outcome, ())
    }

    /// The number of bytes waiting in the input buffer, readable without blocking.
    pub fn try_available(&self) -> (r: Result<u32, SerialError>)
        ensures
            !self.is_open() <==> fails_not_open(r),
    {
        match &self.port {
            Some(p) => match device::bytes_to_read(p) {
                Ok(n) => Ok(n),
                Err(e) => Err(device::device_error(e)),
            },
            None => Err(SerialError::NotOpen),
        }
    }

    /// The number of bytes waiting in the input buffer, readable without blocking, at most `i32::MAX`; `0` on failure.
    pub fn available(&mut self) -> (r: i32)
        ensures
            final(self).handle() == old(self).handle(),
            r >= 0,
            settled(old(self).log(), final(self).log(), Operation::Available, old(self).is_open(), r, 0),
    {
        let outcome = match self.try_available() {
            Ok(n) => Ok(host_count(n)),
            Err(e) => Err(e),
        };
        self.settle(Operation::Available, outcome, 0)
    }

    /// The number of bytes queued in the output buffer and not yet sent.
    pub fn try_remains(&self) -> (r: Result<u32, SerialError>)
        ensures
            !self.is_open() <==> fails_not_open(r),
    {
        match &self.port {
            Some(p) => match device::bytes_to_write(p) {
                Ok(n) => Ok(n),
                Err(e) => Err(device::device_error(e)),
            },
            None => Err(SerialError::NotOpen),
        }
    }

    /// The number of bytes queued in the output buffer and not yet sent, at most `i32::MAX`; `0` on failure.
    pub fn remains(&mut self) -> (r: i32)
        ensures
            final(self).handle() == old(self).handle(),
            r >= 0,
            settled(old(self).log(), final(self).log(), Operation::Remains, old(self).is_open(), r, 0),
    {
        let outcome = match self.try_remains() {
            Ok(n) => Ok(host_count(n)),
            Err(e) => Err(e),
        };
        self.settle(Operation::Remains, outcome, 0)
    }

    /// Applies a new baud rate to the open handle; the port stays open on
    /// the same device whatever the device answers.
    pub fn try_set_baud_rate(&mut self, baud_rate: u32) -> (r: Result<(), SerialError>)
        ensures
            final(self).is_open() == old(self).is_open(),
            final(self).bound_name() == old(self).bound_name(),
            final(self).log() == old(self).log(),
            !old(self).is_open() <==> fails_not_open(r),
    {
        match self.port.take() {
            Some(mut p) => {
                let r = device::set_baud_rate(&mut p, baud_rate);
                self.port = Some(p);
                match r {
                    Ok(()) => Ok(()),
                    Err(e) => Err(device::device_error(e)),
                }
            },
            None => Err(SerialError::NotOpen),
        }
    }

    /// Applies a new baud rate, and says whether it was applied.
    pub fn set_baud_rate(&mut self, baud_rate: u32) -> (r: bool)
        ensures
            final(self).is_open() == old(self).is_open(),
            final(self).bound_name() == old(self).bound_name(),
            settled(old(self).log(), final(self).log(), Operation::SetBaudRate, old(self).is_open(), r, false),
            r == (final(self).log() == old(self).log()),
    {
        let outcome = match self.try_set_baud_rate(baud_rate) {
            Ok(()) => Ok(true),
            Err(e) => Err(e),
        };
        self.settle(Operation::SetBaudRate, outcome, false)
    }

    /// Writes a prefix of `data` and returns its length. Writing nothing
    /// succeeds at once without asking the device.
    pub fn try_write(&mut self, data: &[u8]) -> (r: Result<usize, SerialError>)
        ensures
            final(self).handle() == old(self).handle(),
            final(self).log() == old(self).log(),
            !old(self).is_open() <==> fails_not_open(r),
            r matches Ok(n) ==> n <= data@.len(),
            old(self).is_open() && data@.len() == 0 ==> (r matches Ok(n) && n == 0),
    {
        match self.port.take() {
            Some(mut p) => {
                let r = if data.len() == 0 {
                    Ok(0)
                } else {
                    device::write(&mut p, data)
                };
                self.port = Some(p);
                match r {
                    Ok(n) => Ok(n),
                    Err(e) => Err(device::device_error(e)),
                }
            },
            None => Err(SerialError::NotOpen),
        }
    }

    /// Writes a prefix of `data`, at most `i32::MAX` bytes, and returns its
    /// length; `-1` on failure. The caller resubmits the rest.
    pub fn write(&mut self, data: &[u8]) -> (r: i32)
        ensures
            final(self).handle() == old(self).handle(),
            settled(old(self).log(), final(self).log(), Operation::Write, old(self).is_open(), r, -1i32),
            -1 <= r <= data@.len(),
            r == -1 <==> final(self).log() != old(self).log(),
            old(self).is_open() && data@.len() == 0 ==> r == 0,
    {
        let limit = i32::MAX as usize;
        let chunk = if data.len() > limit {
            vstd::slice::slice_subrange(data, 0, limit)
        } else {
            data
        };
        let outcome = match self.try_write(chunk) {
            Ok(n) => Ok(n as i32),
            Err(e) => Err(e),
        };
        let r = self.settle(Operation::Write, outcome, -1);
        assert(self.log() != old(self).log() ==> self.log().len() != old(self).log().len());
        r
    }

    /// Reads at most `max` bytes that have already arrived. Asking for none
    /// succeeds at once without asking the device.
    pub fn try_read_up_to(&mut self, max: usize) -> (r: Result<Vec<u8>, SerialError>)
        ensures
            final(self).handle() == old(self).handle(),
            final(self).log() == old(self).log(),
            !old(self).is_open() <==> fails_not_open(r),
            r matches Ok(v) ==> v@.len() <= max,
            old(self).is_open() && max == 0 ==> (r matches Ok(v) && v@.len() == 0),
    {
        match self.port.take() {
            Some(mut p) => {
                if max == 0 {
                    self.port = Some(p);
                    return Ok(Vec::new());
                }
                let mut buf = vec![0u8; max];
                let r = device::read(&mut p, &mut buf);
                self.port = Some(p);
                match r {
                    Ok(n) => Ok(prefix(&buf, n)),
                    Err(e) => Err(device::device_error(e)),
                }
            },
            None => Err(SerialError::NotOpen),
        }
    }

    /// Reads the bytes that have already arrived, given the device's answer
    /// to how many are pending: at most that many are read, so that none
    /// pending gives an empty result; a failed answer is handed on.
    pub fn try_read_pending(&mut self, pending: Result<u32, SerialError>) -> (r: Result<Vec<u8>, SerialError>)
        ensures
            final(self).handle() == old(self).handle(),
            final(self).log() == old(self).log(),
            pending matches Err(e) ==> r == Err::<Vec<u8>, SerialError>(e),
            pending matches Ok(n) ==> {
                &&& (!old(self).is_open() <==> fails_not_open(r))
                &&& (r matches Ok(v) ==> v@.len() <= n)
                &&& (old(self).is_open() && n == 0 ==> (r matches Ok(v) && v@.len() == 0))
            },
    {
        match pending {
            Ok(n) => self.try_read_up_to(n as usize),
            Err(e) => Err(e),
        }
    }

    /// Reads the bytes that have already arrived, without waiting for more:
    /// the device is asked how many there are, and at most that many are
    /// read.
    pub fn try_read(&mut self) -> (r: Result<Vec<u8>, SerialError>)
        ensures
            final(self).handle() == old(self).handle(),
            final(self).log() == old(self).log(),
            !old(self).is_open() <==> fails_not_open(r),
    {
        let pending = self.try_available();
        self.try_read_pending(pending)
    }

    /// The bytes that have already arrived, possibly none; empty on failure.
    pub fn read(&mut self) -> (r: Vec<u8>)
        ensures
            final(self).handle() == old(self).handle(),
            settled(old(self).log(), final(self).log(), Operation::Read, old(self).is_open(), r@, Seq::empty()),
    {
        let outcome = self.try_read();
        self.settle(Operation::Read, outcome, Vec::new())
    }

    /// Reads exactly `size` bytes, waiting up to the handle's timeout.
    /// Asking for none succeeds at once without asking the device.
    pub fn try_read_exact(&mut self, size: usize) -> (r: Result<Vec<u8>, SerialError>)
        ensures
            final(self).handle() == old(self).handle(),
            final(self).log() == old(self).log(),
            !old(self).is_open() <==> fails_not_open(r),
            r matches Ok(v) ==> v@.len() == size,
            old(self).is_open() && size == 0 ==> r is Ok,
    {
        match self.port.take() {
            Some(mut p) => {
                if size == 0 {
                    self.port = Some(p);
                    return Ok(Vec::new());
                }
                let mut buf = vec![0u8; size];
                let r = device::read_exact(&mut p, &mut buf);
                self.port = Some(p);
                match r {
                    Ok(()) => Ok(buf),
                    Err(e) => Err(device::device_error(e)),
                }
            },
            None => Err(SerialError::NotOpen),
        }
    }

    /// Exactly `size` bytes, waiting up to the handle's timeout; empty on
    /// failure. A negative size is a failure; a size of `0` on an open port
    /// succeeds at once.
    pub fn read_exact(&mut self, size: i32) -> (r: Vec<u8>)
        ensures
            final(self).handle() == old(self).handle(),
            settled(old(self).log(), final(self).log(), Operation::ReadExact, old(self).is_open(), r@, Seq::empty()),
            r@.len() == size || r@.len() == 0,
            final(self).log() == old(self).log() ==> r@.len() == size,
            old(self).is_open() && size == 0 ==> final(self).log() == old(self).log(),
            old(self).is_open() && size < 0 ==> final(self).log() == old(self).log().push(
                Diagnostic { operation: Operation::ReadExact, error: SerialError::NegativeSize },
            ),
    {
        let outcome = if size < 0 {
            if self.port.is_some() {
                Err(SerialError::NegativeSize)
            } else {
                Err(SerialError::NotOpen)
            }
        } else {
            self.try_read_exact(size as usize)
        };
        self.settle(Operation::ReadExact, outcome, Vec::new())
    }

    /// The ports of an OS listing, all of them in the listed order. Where
    /// the listing itself failed, no ports, with the failure recorded in
    /// `diagnostics`.
    pub fn list_ports(
        listing: Result<Vec<PortDescriptor>, SerialError>,
        diagnostics: &mut Vec<Diagnostic>,
    ) -> (r: Vec<PortDescriptor>)
        ensures
            match listing {
                Ok(ports) => r@ == ports@ && final(diagnostics)@ == old(diagnostics)@,
                Err(e) => r@.len() == 0 && final(diagnostics)@ == old(diagnostics)@.push(
                    Diagnostic { operation: Operation::ListPorts, error: e },
                ),
            },
    {
        match listing {
            Ok(ports) => ports,
            Err(error) => {
                diagnostics.push(Diagnostic { operation: Operation::ListPorts, error });
                Vec::new()
            },
        }
    }
}

/// Every operation attempted on a closed port returns its default value and
/// records exactly one not-open diagnostic.
pub proof fn lemma_closed_defaults<T>(
    before: Seq<Diagnostic>,
    after: Seq<Diagnostic>,
    op: Operation,
    r: T,
    default: T,
)
    requires
        settled(before, after, op, false, r, default),
    ensures
        r == default,
        after == before.push(not_open(op)),
        after.last().error is NotOpen,
{
}

/// A failed open of a closed port leaves it with no handle, so a following
/// buffer query takes the not-open path and answers `0`.
pub proof fn lemma_failed_open_leaves_closed(
    before: Serial,
    after: Serial,
    name: Seq<char>,
    later: Seq<Diagnostic>,
    r: i32,
)
    requires
        !before.is_open(),
        open_outcome(before, after, name, false),
        settled(after.log(), later, Operation::Available, after.is_open(), r, 0i32),
    ensures
        after.handle() is None,
        r == 0,
        later == after.log().push(not_open(Operation::Available)),
{
}

/// A failed open of another device keeps the handle that was open.
pub proof fn lemma_failed_open_keeps_other_port(before: Serial, after: Serial, name: Seq<char>)
    requires
        before.is_open(),
        before.bound_name() != name,
        open_outcome(before, after, name, false),
    ensures
        after.handle() == before.handle(),
        after.bound_name() == before.bound_name(),
{
}

/// Once a port is open, changing its baud rate keeps it open on the same
/// device and never fails for want of an open port, so it never needs
/// reopening.
pub proof fn lemma_baud_change_keeps_open(s0: Serial, s1: Serial, s2: Serial, name: Seq<char>, r: bool)
    requires
        open_outcome(s0, s1, name, true),
        s2.is_open() == s1.is_open(),
        s2.bound_name() == s1.bound_name(),
        settled(s1.log(), s2.log(), Operation::SetBaudRate, s1.is_open(), r, false),
    ensures
        holds(s2, name),
        s2.log() == s1.log() || failure_logged(s1.log(), s2.log(), Operation::SetBaudRate),
{
}

/// Opening the same device twice in a row: when both opens succeed the port
/// ends open on that device, with nothing logged by either.
pub proof fn lemma_reopen(s0: Serial, s1: Serial, s2: Serial, name: Seq<char>)
    requires
        open_outcome(s0, s1, name, true),
        open_outcome(s1, s2, name, true),
    ensures
        holds(s2, name),
        s2.log() == s0.log(),
{
}

} // verus!
