//! An in-memory channel that records every call issued to it, for driving
//! the handle without hardware and observing its control-line sequencing.

use vstd::prelude::*;

use crate::transport::{event, Call, ChannelError, Event, Transport};

verus! {

/// One call as the mock records it, readable back from a test.
#[derive(Debug, PartialEq, Eq)]
pub enum RecordedCall {
    /// The request-to-send line was set to the given level.
    SetRts(bool),
    /// The data-terminal-ready line was set to the given level.
    SetDtr(bool),
    /// A write carrying the given text was issued.
    Write(String),
    /// A read up to end-of-stream was issued.
    ReadToEnd,
}

impl View for RecordedCall {
    type V = Call;

    open spec fn view(&self) -> Call {
        match self {
            RecordedCall::SetRts(level) => Call::SetRts(*level),
            RecordedCall::SetDtr(level) => Call::SetDtr(*level),
            RecordedCall::Write(data) => Call::Write(data@),
            RecordedCall::ReadToEnd => Call::ReadToEnd,
        }
    }
}

/// One history entry as the mock records it: the call issued, and whether
/// it succeeded.
#[derive(Debug, PartialEq, Eq)]
pub struct RecordedEvent {
    pub call: RecordedCall,
    pub ok: bool,
}

impl View for RecordedEvent {
    type V = Event;

    open spec fn view(&self) -> Event {
        event(self.call@, self.ok)
    }
}

/// An in-memory channel.  It holds the bytes the next read will yield,
/// records every call issued to it in order, outcome included, and can be
/// told to fail its control-line calls or its data calls while still
/// recording them.
pub struct MockTransport {
    address: String,
    incoming: Vec<u8>,
    calls: Vec<RecordedEvent>,
    fail_lines: bool,
    fail_data: bool,
}

impl MockTransport {
    /// Whether control-line calls are set to fail.
    pub closed spec fn spec_fail_lines(&self) -> bool {
        self.fail_lines
    }

    /// Whether write and read calls are set to fail.
    pub closed spec fn spec_fail_data(&self) -> bool {
        self.fail_data
    }

    /// The address this channel was opened at.
    pub fn address(&self) -> (r: &str)
        ensures
            r@ == self.opened_at(),
    {
        self.address.as_str()
    }

    /// Replaces the bytes the next read will yield.
    pub fn load_incoming(&mut self, data: Vec<u8>)
        ensures
            final(self).pending() == data@,
            final(self).log() == old(self).log(),
            final(self).opened_at() == old(self).opened_at(),
            final(self).spec_fail_lines() == old(self).spec_fail_lines(),
            final(self).spec_fail_data() == old(self).spec_fail_data(),
    {
        self.incoming = data;
    }

    /// Makes every later control-line call fail (or succeed again).
    pub fn set_fail_lines(&mut self, v: bool)
        ensures
            final(self).spec_fail_lines() == v,
            final(self).spec_fail_data() == old(self).spec_fail_data(),
            final(self).log() == old(self).log(),
            final(self).pending() == old(self).pending(),
            final(self).opened_at() == old(self).opened_at(),
    {
        self.fail_lines = v;
    }

    /// Makes every later write and read call fail (or succeed again).
    pub fn set_fail_data(&mut self, v: bool)
        ensures
            final(self).spec_fail_data() == v,
            final(self).spec_fail_lines() == old(self).spec_fail_lines(),
            final(self).log() == old(self).log(),
            final(self).pending() == old(self).pending(),
            final(self).opened_at() == old(self).opened_at(),
    {
        self.fail_data = v;
    }

    /// The history recorded so far, oldest first.
    pub fn recorded(&self) -> (r: &Vec<RecordedEvent>)
        ensures
            r@.map_values(|e: RecordedEvent| e@) == self.log(),
    {
        &self.calls
    }

    /// Records one history entry.
    fn record(&mut self, entry: RecordedEvent)
        ensures
            final(self).log() == old(self).log().push(entry@),
            final(self).pending() == old(self).pending(),
            final(self).opened_at() == old(self).opened_at(),
            final(self).spec_fail_lines() == old(self).spec_fail_lines(),
            final(self).spec_fail_data() == old(self).spec_fail_data(),
    {
        let ghost prior = self.calls@;
        let ghost entered = entry@;
        self.calls.push(entry);
        proof {
            assert(self.calls@.map_values(|e: RecordedEvent| e@) =~= prior.map_values(
                |e: RecordedEvent| e@,
            ).push(entered));
        }
    }
}

impl Transport for MockTransport {
    closed spec fn log(&self) -> Seq<Event> {
        self.calls@.map_values(|e: RecordedEvent| e@)
    }

    closed spec fn pending(&self) -> Seq<u8> {
        self.incoming@
    }

    closed spec fn opened_at(&self) -> Seq<char> {
        self.address@
    }

    /// The mock's behaviour is a function of its modeled state alone.
    open spec fn deterministic() -> bool {
        true
    }

    /// The mock accepts every non-empty address and treats the empty
    /// address as a nonexistent device.
    open spec fn opens(address: Seq<char>) -> bool {
        address.len() > 0
    }

    fn open(address: &str) -> (r: Result<Self, ChannelError>)
        ensures
            (r matches Ok(t) ==> t.pending() == Seq::<u8>::empty() && !t.spec_fail_lines()
                && !t.spec_fail_data()),
    {
        if address.is_empty() {
            Err(ChannelError::Open)
        } else {
            let t = MockTransport {
                address: address.to_owned(),
                incoming: Vec::new(),
                calls: Vec::new(),
                fail_lines: false,
                fail_data: false,
            };
            proof {
                assert(t.log() =~= Seq::<Event>::empty());
            }
            Ok(t)
        }
    }

    fn set_rts(&mut self, level: bool) -> (r: Result<(), ChannelError>)
        ensures
            r is Ok <==> !old(self).spec_fail_lines(),
    {
        let ok = !self.fail_lines;
        self.record(RecordedEvent { call: RecordedCall::SetRts(level), ok });
        if ok {
            Ok(())
        } else {
            Err(ChannelError::Io)
        }
    }

    fn set_dtr(&mut self, level: bool) -> (r: Result<(), ChannelError>)
        ensures
            r is Ok <==> !old(self).spec_fail_lines(),
    {
        let ok = !self.fail_lines;
        self.record(RecordedEvent { call: RecordedCall::SetDtr(level), ok });
        if ok {
            Ok(())
        } else {
            Err(ChannelError::Io)
        }
    }

    fn write(&mut self, data: &str) -> (r: Result<(), ChannelError>)
        ensures
            r is Ok <==> !old(self).spec_fail_data(),
    {
        let ok = !self.fail_data;
        self.record(RecordedEvent { call: RecordedCall::Write(data.to_owned()), ok });
        if ok {
            Ok(())
        } else {
            Err(ChannelError::Io)
        }
    }

    fn read_to_end(&mut self) -> (r: Result<Vec<u8>, ChannelError>)
        ensures
            r is Ok <==> !old(self).spec_fail_data(),
    {
        let ok = !self.fail_data;
        self.record(RecordedEvent { call: RecordedCall::ReadToEnd, ok });
        if ok {
            let mut drained: Vec<u8> = Vec::new();
            std::mem::swap(&mut drained, &mut self.incoming);
            Ok(drained)
        } else {
            Err(ChannelError::Io)
        }
    }
}

} // verus!
