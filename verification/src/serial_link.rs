//! The real channel: a system serial port driven through the `serial`
//! crate.  Each call of that crate sits behind one trusted wrapper whose
//! contract states only the error mapping; the transport itself is
//! verified, keeping the call history and the opened address as ghost
//! state.  What a real device's reads return depends on the device, on
//! timing, and on what was written — the environment — so no contract here
//! claims anything about byte content: the transport is not
//! `deterministic`, and the handle's content clauses do not apply to it.

use vstd::prelude::*;

use crate::transport::{event, Call, ChannelError, Event, Transport};

verus! {

/// `serial::SystemPort` is the `serial` crate's native port type (a TTY
/// device on Unix-like systems, a COM port on Windows), declared opaque so
/// that a field may hold it.
#[verifier::external_type_specification]
#[verifier::external_body]
pub struct ExSystemPort(serial::SystemPort);

/// Relies on `serial::open`: opens the named serial device, failing with
/// `NoDevice`, `InvalidInput` or an I/O error when the device cannot be
/// opened and initialized.
#[verifier::external_body]
fn sys_open(address: &str) -> (r: Result<serial::SystemPort, ChannelError>)
    ensures
        (r matches Err(e) ==> e == ChannelError::Open),
{
    match serial::open(address) {
        Ok(port) => Ok(port),
        Err(_) => Err(ChannelError::Open),
    }
}

/// Relies on `SerialPort::set_rts` of the `serial` crate: sets the RTS
/// control signal to the given level, failing with `NoDevice` or an I/O
/// error.
#[verifier::external_body]
fn sys_set_rts(port: &mut serial::SystemPort, level: bool) -> (r: Result<(), ChannelError>)
    ensures
        (r matches Err(e) ==> e == ChannelError::Io),
{
    match serial::SerialPort::set_rts(port, level) {
        Ok(()) => Ok(()),
        Err(_) => Err(ChannelError::Io),
    }
}

/// Relies on `SerialPort::set_dtr` of the `serial` crate: sets the DTR
/// control signal to the given level, failing with `NoDevice` or an I/O
/// error.
#[verifier::external_body]
fn sys_set_dtr(port: &mut serial::SystemPort, level: bool) -> (r: Result<(), ChannelError>)
    ensures
        (r matches Err(e) ==> e == ChannelError::Io),
{
    match serial::SerialPort::set_dtr(port, level) {
        Ok(()) => Ok(()),
        Err(_) => Err(ChannelError::Io),
    }
}

/// Relies on `std::io::Write::write` for the port: issues one write
/// carrying the text's bytes.  As in the device protocol, delivery is
/// fire-and-forget: nothing is claimed about how many bytes the device
/// accepted.
#[verifier::external_body]
fn sys_write(port: &mut serial::SystemPort, data: &str) -> (r: Result<(), ChannelError>)
    ensures
        (r matches Err(e) ==> e == ChannelError::Io),
{
    match std::io::Write::write(port, data.as_bytes()) {
        Ok(_) => Ok(()),
        Err(_) => Err(ChannelError::Io),
    }
}

/// Relies on `std::io::Read::read_to_end` for the port: reads until the
/// port signals end-of-stream and returns every byte read.  Which bytes
/// those are depends on the device and on timing, so nothing is claimed
/// about them; the handle's decoding takes them as an argument.
#[verifier::external_body]
fn sys_read_to_end(port: &mut serial::SystemPort) -> (r: Result<Vec<u8>, ChannelError>)
    ensures
        (r matches Err(e) ==> e == ChannelError::Io),
{
    let mut buf = Vec::new();
    match std::io::Read::read_to_end(port, &mut buf) {
        Ok(_) => Ok(buf),
        Err(_) => Err(ChannelError::Io),
    }
}

/// A serial byte channel over a system serial port.  The ghost `calls`
/// field is the history of calls issued through this transport; the ghost
/// `address` field is the address it was opened at.
pub struct SerialTransport {
    port: serial::SystemPort,
    calls: Ghost<Seq<Event>>,
    address: Ghost<Seq<char>>,
}

impl Transport for SerialTransport {
    closed spec fn log(&self) -> Seq<Event> {
        self.calls@
    }

    /// Byte content is not modeled for a real device: see `deterministic`.
    closed spec fn pending(&self) -> Seq<u8> {
        Seq::empty()
    }

    closed spec fn opened_at(&self) -> Seq<char> {
        self.address@
    }

    /// A real device's behaviour depends on the environment, never on
    /// modeled state alone.
    open spec fn deterministic() -> bool {
        false
    }

    /// Never consulted: with `deterministic` false, no contract speaks of
    /// which addresses open.
    open spec fn opens(address: Seq<char>) -> bool {
        false
    }

    fn open(address: &str) -> (r: Result<Self, ChannelError>) {
        match sys_open(address) {
            Ok(port) => Ok(
                SerialTransport { port, calls: Ghost(Seq::empty()), address: Ghost(address@) },
            ),
            Err(e) => Err(e),
        }
    }

    fn set_rts(&mut self, level: bool) -> (r: Result<(), ChannelError>) {
        let r = sys_set_rts(&mut self.port, level);
        self.calls = Ghost(self.calls@.push(event(Call::SetRts(level), r is Ok)));
        r
    }

    fn set_dtr(&mut self, level: bool) -> (r: Result<(), ChannelError>) {
        let r = sys_set_dtr(&mut self.port, level);
        self.calls = Ghost(self.calls@.push(event(Call::SetDtr(level), r is Ok)));
        r
    }

    fn write(&mut self, data: &str) -> (r: Result<(), ChannelError>) {
        let r = sys_write(&mut self.port, data);
        self.calls = Ghost(self.calls@.push(event(Call::Write(data@), r is Ok)));
        r
    }

    fn read_to_end(&mut self) -> (r: Result<Vec<u8>, ChannelError>) {
        let r = sys_read_to_end(&mut self.port);
        self.calls = Ghost(self.calls@.push(event(Call::ReadToEnd, r is Ok)));
        r
    }
}

} // verus!
