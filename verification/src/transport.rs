//! The channel abstraction that the transceiver handle drives: open by
//! address, byte write, read to end-of-stream, and the two control lines.

use vstd::prelude::*;

verus! {

/// A channel-level fault, distinct from any device-reported fault.
#[derive(Clone, Copy, Debug, PartialEq, Eq, Structural)]
pub enum ChannelError {
    /// The device path or port could not be opened.
    Open,
    /// A control-line change, a write, or a read failed.
    Io,
}

/// One call issued at the transport boundary.
pub enum Call {
    /// The request-to-send line (transmit enable) was set to the given level.
    SetRts(bool),
    /// The data-terminal-ready line was set to the given level.
    SetDtr(bool),
    /// A write carrying the given text was issued.
    Write(Seq<char>),
    /// A read up to end-of-stream was issued.
    ReadToEnd,
}

/// One entry of a channel's history: the call issued, and whether it
/// succeeded.  The recorded history of these entries, in the order issued,
/// is the specification surface over which the handle's control-line
/// sequencing is stated.
pub struct Event {
    pub call: Call,
    pub ok: bool,
}

/// The history entry for one call with the given outcome.
pub open spec fn event(call: Call, ok: bool) -> Event {
    Event { call, ok }
}

/// A serial byte channel.  Every implementation models the history of
/// calls issued to it (`log`), which grows by exactly one entry per call,
/// outcome included, whether or not the call succeeds, and the address the
/// channel was opened at (`opened_at`).
///
/// A channel may further model its byte content (`pending`) and which
/// addresses open (`opens`).  Only an implementation whose behaviour is a
/// function of that modeled state alone — `deterministic` — promises
/// anything about them: the in-memory mock is such a channel; a real
/// device is not, since what its opens and reads do depends on the device,
/// on timing, and on the environment, and nothing of the kind can honestly
/// be promised for it.
pub trait Transport: Sized {
    /// The calls issued to this channel so far, oldest first.
    spec fn log(&self) -> Seq<Event>;

    /// The bytes that a read to end-of-stream would currently yield, where
    /// the implementation models them (see `deterministic`).
    spec fn pending(&self) -> Seq<u8>;

    /// The address this channel was opened at.
    spec fn opened_at(&self) -> Seq<char>;

    /// Whether this transport's behaviour is a function of its modeled
    /// state alone.
    spec fn deterministic() -> bool;

    /// Which addresses open, where the implementation models that (see
    /// `deterministic`).
    spec fn opens(address: Seq<char>) -> bool;

    /// Opens a fresh channel at the given device address.  A fresh channel
    /// has an empty call history and records the address it was opened at.
    fn open(address: &str) -> (r: Result<Self, ChannelError>)
        ensures
            (r matches Ok(t) ==> t.log() == Seq::<Event>::empty() && t.opened_at() == address@),
            (r matches Err(e) ==> e == ChannelError::Open),
            (Self::deterministic() ==> (r is Ok <==> Self::opens(address@))),
    ;

    /// Sets the request-to-send (transmit enable) line.
    fn set_rts(&mut self, level: bool) -> (r: Result<(), ChannelError>)
        ensures
            final(self).log() == old(self).log().push(event(Call::SetRts(level), r is Ok)),
            final(self).pending() == old(self).pending(),
            final(self).opened_at() == old(self).opened_at(),
            (r matches Err(e) ==> e == ChannelError::Io),
    ;

    /// Sets the data-terminal-ready line.
    fn set_dtr(&mut self, level: bool) -> (r: Result<(), ChannelError>)
        ensures
            final(self).log() == old(self).log().push(event(Call::SetDtr(level), r is Ok)),
            final(self).pending() == old(self).pending(),
            final(self).opened_at() == old(self).opened_at(),
            (r matches Err(e) ==> e == ChannelError::Io),
    ;

    /// Issues a write carrying the given text.
    fn write(&mut self, data: &str) -> (r: Result<(), ChannelError>)
        ensures
            final(self).log() == old(self).log().push(event(Call::Write(data@), r is Ok)),
            final(self).pending() == old(self).pending(),
            final(self).opened_at() == old(self).opened_at(),
            (r matches Err(e) ==> e == ChannelError::Io),
    ;

    /// Reads until the channel signals end-of-stream.  On a deterministic
    /// channel a successful read returns exactly the modeled bytes and
    /// drains them; of any other channel, only the issued call and the
    /// error kind are promised.
    fn read_to_end(&mut self) -> (r: Result<Vec<u8>, ChannelError>)
        ensures
            final(self).log() == old(self).log().push(event(Call::ReadToEnd, r is Ok)),
            final(self).opened_at() == old(self).opened_at(),
            (r matches Ok(bytes) ==> (Self::deterministic() ==> bytes@ == old(self).pending()
                && final(self).pending() == Seq::<u8>::empty())),
            (r matches Err(e) ==> e == ChannelError::Io),
    ;
}

} // verus!
