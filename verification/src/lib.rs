//! Control interface for a TS-480 radio transceiver reachable over a serial
//! link.  Commands are rendered as `;`-terminated ASCII strings, replies are
//! decoded from raw bytes and classified into a small set of device-reported
//! fault kinds, and the transceiver handle sequences the transmit-enable line
//! around every write and read.

mod command;
mod handle;
mod mock;
mod response;
mod serial_link;
mod transport;

pub use command::Command;
pub use handle::{RadioResult, TS480};
pub use mock::{MockTransport, RecordedCall, RecordedEvent};
pub use response::{check_for_error, decode_ascii, RadioError};
pub use serial_link::SerialTransport;
pub use transport::{Call, ChannelError, Event, Transport};
