//! The transceiver handle: owns the channel, renders and sends commands,
//! and sequences the transmit-enable line around every write and read.

use vstd::prelude::*;

use crate::command::{spec_decimal, Command};
use crate::response::{ascii_filter, decode_ascii};
use crate::transport::{event, Call, ChannelError, Event, Transport};

verus! {

/// The result of a handle operation.  The outer layer reports channel
/// faults; the inner layer is reserved for device-reported faults, which
/// the handle itself never raises: the classifier is a utility the caller
/// applies to reply text by convention.
pub type RadioResult<T> = Result<Result<T, crate::response::RadioError>, ChannelError>;

/// A handle on a TS-480 transceiver behind a serial channel.  The handle
/// is the channel's sole owner: within one handle, operations run strictly
/// in call order, and each operation's contract states exactly which
/// entries, outcomes included, it appends to the channel's history.
pub struct TS480<T: Transport> {
    port: T,
    port_name: String,
}

impl<T: Transport> TS480<T> {
    /// The channel the handle currently owns.
    pub closed spec fn spec_port(&self) -> T {
        self.port
    }

    /// The calls issued to the current channel so far, oldest first, each
    /// with its outcome.
    pub open spec fn log(&self) -> Seq<Event> {
        self.spec_port().log()
    }

    /// The bytes the current channel still holds for the next read, where
    /// the transport models them.
    pub open spec fn pending(&self) -> Seq<u8> {
        self.spec_port().pending()
    }

    /// The device address the handle was opened at, and reopens on
    /// `reconnect`.
    pub closed spec fn address(&self) -> Seq<char> {
        self.port_name@
    }

    /// The address the currently owned channel was opened at.
    pub open spec fn channel_address(&self) -> Seq<char> {
        self.spec_port().opened_at()
    }

    /// The currently owned channel was opened at the handle's recorded
    /// address.
    pub open spec fn channel_at_recorded_address(&self) -> bool {
        self.channel_address() == self.address()
    }

    /// Connects to the radio by opening a fresh channel at the given
    /// address: a device file such as `/dev/ttyS0` on Unix-like systems, a
    /// port name such as `COM1` on Windows.  On failure no handle exists;
    /// on a deterministic transport the open succeeds exactly where the
    /// transport says, and otherwise the device decides.
    pub fn new(port: &str) -> (r: Result<Self, ChannelError>)
        ensures
            (r matches Ok(h) ==> h.address() == port@ && h.log() == Seq::<Event>::empty()
                && h.channel_at_recorded_address()),
            (r matches Err(e) ==> e == ChannelError::Open),
            (T::deterministic() ==> (r is Ok <==> T::opens(port@))),
    {
        match T::open(port) {
            Ok(p) => Ok(TS480 { port: p, port_name: port.to_owned() }),
            Err(e) => Err(e),
        }
    }

    /// Wraps an already open channel, recording the given address as the
    /// one `reconnect` reopens.
    pub fn from_port(port: T, port_name: String) -> (r: Self)
        ensures
            r.spec_port() == port,
            r.address() == port_name@,
    {
        TS480 { port, port_name }
    }

    /// Reconnects to the radio at the originally recorded address.  On
    /// success the old channel is discarded, buffered state and all, and a
    /// fresh one, opened at that same address and with an empty history,
    /// takes its place; on failure the handle is unchanged.  The recorded
    /// address never changes, so repeated calls each reopen the same
    /// address.
    pub fn reconnect(&mut self) -> (r: Result<(), ChannelError>)
        ensures
            final(self).address() == old(self).address(),
            (r is Ok ==> final(self).log() == Seq::<Event>::empty()
                && final(self).channel_at_recorded_address()),
            (r matches Err(e) ==> e == ChannelError::Open && *final(self) == *old(self)),
            (T::deterministic() ==> (r is Ok <==> T::opens(old(self).address()))),
    {
        match T::open(self.port_name.as_str()) {
            Ok(p) => {
                self.port = p;
                Ok(())
            },
            Err(e) => Err(e),
        }
    }

    /// The recorded device address, the one `reconnect` reopens.
    pub fn port_name(&self) -> (r: &str)
        ensures
            r@ == self.address(),
    {
        self.port_name.as_str()
    }

    /// A borrow of the current channel, for inspecting what it observed.
    pub fn port(&self) -> (r: &T)
        ensures
            r == self.spec_port(),
    {
        &self.port
    }

    /// A mutable borrow of the current channel, for staging its state.
    pub fn port_mut(&mut self) -> (r: &mut T)
        ensures
            *r == old(self).spec_port(),
            final(self).spec_port() == *final(r),
            final(self).address() == old(self).address(),
    {
        &mut self.port
    }

    /// Asserts the transmit-enable line, then issues one write carrying
    /// the command text, and succeeds as soon as the write call returns:
    /// no device acknowledgment is awaited or checked.  The line is left
    /// asserted; only `receive` or `teardown` deasserts it.  A failed line
    /// assert aborts the operation before any write is issued; a failed
    /// write aborts after it.
    pub fn transmit(&mut self, data: &str) -> (r: RadioResult<()>)
        ensures
            final(self).address() == old(self).address(),
            final(self).channel_address() == old(self).channel_address(),
            final(self).pending() == old(self).pending(),
            (r matches Ok(inner) ==> inner is Ok && final(self).log() == old(self).log() + seq![
                event(Call::SetRts(true), true),
                event(Call::Write(data@), true),
            ]),
            (r matches Err(e) ==> e == ChannelError::Io && (final(self).log() == old(
                self,
            ).log().push(event(Call::SetRts(true), false)) || final(self).log() == old(self).log()
                + seq![event(Call::SetRts(true), true), event(Call::Write(data@), false)])),
    {
        match self.port.set_rts(true) {
            Ok(u) => u,
            Err(e) => {
                return Err(e);
            },
        }
        match self.port.write(data) {
            Ok(u) => u,
            Err(e) => {
                proof {
                    assert(old(self).log().push(event(Call::SetRts(true), true)).push(
                        event(Call::Write(data@), false),
                    ) =~= old(self).log() + seq![
                        event(Call::SetRts(true), true),
                        event(Call::Write(data@), false),
                    ]);
                }
                return Err(e);
            },
        }
        proof {
            assert(old(self).log().push(event(Call::SetRts(true), true)).push(
                event(Call::Write(data@), true),
            ) =~= old(self).log() + seq![
                event(Call::SetRts(true), true),
                event(Call::Write(data@), true),
            ]);
        }
        Ok(Ok(()))
    }

    /// Deasserts the transmit-enable line, then reads from the channel
    /// until it signals end-of-stream, and decodes the accumulated bytes
    /// as ASCII, silently dropping every byte that is not valid ASCII.
    /// This blocks for as long as the channel takes to signal
    /// end-of-stream.  A failed line deassert aborts the operation before
    /// any read is attempted; a failed read aborts after it.  On a
    /// deterministic transport the text is exactly the decoding of the
    /// channel's modeled bytes, which the read drains.
    pub fn receive(&mut self) -> (r: RadioResult<String>)
        ensures
            final(self).address() == old(self).address(),
            final(self).channel_address() == old(self).channel_address(),
            (r matches Ok(inner) ==> inner matches Ok(text) && final(self).log() == old(
                self,
            ).log() + seq![event(Call::SetRts(false), true), event(Call::ReadToEnd, true)] && (
            T::deterministic() ==> text@ == ascii_filter(old(self).pending()) && final(self).pending() == Seq::<u8>::empty())),
            (r matches Err(e) ==> e == ChannelError::Io && (final(self).log() == old(
                self,
            ).log().push(event(Call::SetRts(false), false)) || final(self).log() == old(
                self,
            ).log() + seq![event(Call::SetRts(false), true), event(Call::ReadToEnd, false)])),
    {
        match self.port.set_rts(false) {
            Ok(u) => u,
            Err(e) => {
                return Err(e);
            },
        }
        let bytes = match self.port.read_to_end() {
            Ok(b) => b,
            Err(e) => {
                proof {
                    assert(old(self).log().push(event(Call::SetRts(false), true)).push(
                        event(Call::ReadToEnd, false),
                    ) =~= old(self).log() + seq![
                        event(Call::SetRts(false), true),
                        event(Call::ReadToEnd, false),
                    ]);
                }
                return Err(e);
            },
        };
        proof {
            assert(old(self).log().push(event(Call::SetRts(false), true)).push(
                event(Call::ReadToEnd, true),
            ) =~= old(self).log() + seq![
                event(Call::SetRts(false), true),
                event(Call::ReadToEnd, true),
            ]);
        }
        Ok(Ok(decode_ascii(bytes.as_slice())))
    }

    /// Selects the antenna connector: 0 is ANT1, 1 is ANT2.  The selector
    /// is rendered verbatim, so the command sent is exactly `AN{p1};`.
    pub fn set_antenna(&mut self, p1: u8) -> (r: RadioResult<()>)
        ensures
            final(self).address() == old(self).address(),
            final(self).channel_address() == old(self).channel_address(),
            final(self).pending() == old(self).pending(),
            (r matches Ok(inner) ==> inner is Ok && final(self).log() == old(self).log() + seq![
                event(Call::SetRts(true), true),
                event(Call::Write(seq!['A', 'N'] + spec_decimal(p1) + seq![';']), true),
            ]),
            (r matches Err(e) ==> e == ChannelError::Io && (final(self).log() == old(
                self,
            ).log().push(event(Call::SetRts(true), false)) || final(self).log() == old(self).log()
                + seq![
                event(Call::SetRts(true), true),
                event(Call::Write(seq!['A', 'N'] + spec_decimal(p1) + seq![';']), false),
            ])),
    {
        let cmd = Command::SetAntenna(p1).encode();
        self.transmit(cmd.as_str())
    }

    /// Steps the frequency band down: sends exactly `BD;`.
    pub fn frequency_down(&mut self) -> (r: RadioResult<()>)
        ensures
            final(self).address() == old(self).address(),
            final(self).channel_address() == old(self).channel_address(),
            final(self).pending() == old(self).pending(),
            (r matches Ok(inner) ==> inner is Ok && final(self).log() == old(self).log() + seq![
                event(Call::SetRts(true), true),
                event(Call::Write(seq!['B', 'D', ';']), true),
            ]),
            (r matches Err(e) ==> e == ChannelError::Io && (final(self).log() == old(
                self,
            ).log().push(event(Call::SetRts(true), false)) || final(self).log() == old(self).log()
                + seq![
                event(Call::SetRts(true), true),
                event(Call::Write(seq!['B', 'D', ';']), false),
            ])),
    {
        let cmd = Command::FrequencyDown.encode();
        self.transmit(cmd.as_str())
    }

    /// Steps the frequency band up: sends exactly `BU;`.
    pub fn frequency_up(&mut self) -> (r: RadioResult<()>)
        ensures
            final(self).address() == old(self).address(),
            final(self).channel_address() == old(self).channel_address(),
            final(self).pending() == old(self).pending(),
            (r matches Ok(inner) ==> inner is Ok && final(self).log() == old(self).log() + seq![
                event(Call::SetRts(true), true),
                event(Call::Write(seq!['B', 'U', ';']), true),
            ]),
            (r matches Err(e) ==> e == ChannelError::Io && (final(self).log() == old(
                self,
            ).log().push(event(Call::SetRts(true), false)) || final(self).log() == old(self).log()
                + seq![
                event(Call::SetRts(true), true),
                event(Call::Write(seq!['B', 'U', ';']), false),
            ])),
    {
        let cmd = Command::FrequencyUp.encode();
        self.transmit(cmd.as_str())
    }

    /// Tears the handle down, resetting the control lines to their safe
    /// idle state: exactly one transmit-enable deassert, then exactly one
    /// data-terminal-ready assert, in that order, whatever state earlier
    /// operations left the channel in.  A failure of either call is
    /// swallowed, never surfaced, and never stops the other, so the two
    /// appended history entries carry whatever outcomes the channel gave.
    /// The channel is handed back for inspection; the handle is consumed,
    /// so the reset runs exactly once.  The reset is tied to this explicit
    /// call rather than to scope exit: a handle dropped without `teardown`
    /// performs no reset, a deliberate deviation from running it in a
    /// destructor, where no contract could be stated or checked.
    pub fn teardown(self) -> (r: T)
        ensures
            r.pending() == self.pending(),
            r.opened_at() == self.channel_address(),
            r.log().len() == self.log().len() + 2,
            r.log().take(self.log().len() as int) == self.log(),
            r.log()[self.log().len() as int].call == Call::SetRts(false),
            r.log()[self.log().len() as int + 1].call == Call::SetDtr(true),
    {
        let TS480 { mut port, .. } = self;
        let _ = port.set_rts(false);
        let _ = port.set_dtr(true);
        proof {
            assert(port.log().take(self.log().len() as int) =~= self.log());
        }
        port
    }
}

} // verus!
