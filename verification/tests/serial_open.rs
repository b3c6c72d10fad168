//! The serial-backed transport on a device path that cannot be opened.

use ts480::{ChannelError, SerialTransport, TS480};

#[test]
fn opening_a_nonexistent_device_yields_open_error_and_no_handle() {
    let r: Result<TS480<SerialTransport>, ChannelError> =
        TS480::new("/dev/a-port-that-does-not-exist");
    match r {
        Ok(_) => panic!("no handle may exist for a nonexistent device"),
        Err(e) => assert_eq!(e, ChannelError::Open),
    }
}
