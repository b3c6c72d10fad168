//! The transceiver handle driven over the recording in-memory channel.

use ts480::{ChannelError, MockTransport, RecordedCall, RecordedEvent, Transport, TS480};

fn open_handle(address: &str) -> TS480<MockTransport> {
    let port = MockTransport::open(address).expect("mock open");
    TS480::from_port(port, String::from(address))
}

fn ev(call: RecordedCall, ok: bool) -> RecordedEvent {
    RecordedEvent { call, ok }
}

#[test]
fn open_with_invalid_address_yields_open_error_and_no_handle() {
    // The mock treats the empty address as a nonexistent device.
    let r: Result<TS480<MockTransport>, ChannelError> = TS480::new("");
    match r {
        Ok(_) => panic!("no handle may exist for an invalid address"),
        Err(e) => assert_eq!(e, ChannelError::Open),
    }
}

#[test]
fn open_with_valid_address_records_it() {
    let h: TS480<MockTransport> = TS480::new("radio0").expect("open");
    assert_eq!(h.port_name(), "radio0");
    assert_eq!(h.port().address(), "radio0");
    assert!(h.port().recorded().is_empty());
}

#[test]
fn transmit_asserts_line_then_writes() {
    let mut h = open_handle("radio0");
    h.transmit("AN1;").expect("transmit").expect("no device fault");
    assert_eq!(
        h.port().recorded().as_slice(),
        &[
            ev(RecordedCall::SetRts(true), true),
            ev(RecordedCall::Write(String::from("AN1;")), true),
        ]
    );
}

#[test]
fn transmit_then_receive_issues_calls_in_order() {
    let mut h = open_handle("radio0");
    h.transmit("AN1;").expect("transmit").expect("no device fault");
    h.receive().expect("receive").expect("no device fault");
    assert_eq!(
        h.port().recorded().as_slice(),
        &[
            ev(RecordedCall::SetRts(true), true),
            ev(RecordedCall::Write(String::from("AN1;")), true),
            ev(RecordedCall::SetRts(false), true),
            ev(RecordedCall::ReadToEnd, true),
        ]
    );
}

#[test]
fn receive_decodes_ascii_and_drops_other_bytes() {
    let mut h = open_handle("radio0");
    h.port_mut().load_incoming(vec![0x41, 0xFF, 0x42, 0x3B]);
    let text = h.receive().expect("receive").expect("no device fault");
    assert_eq!(text, "AB;");
}

#[test]
fn receive_drains_the_channel() {
    let mut h = open_handle("radio0");
    h.port_mut().load_incoming(vec![0x41, 0x3B]);
    assert_eq!(h.receive().unwrap().unwrap(), "A;");
    assert_eq!(h.receive().unwrap().unwrap(), "");
}

#[test]
fn set_antenna_sends_exact_command() {
    let mut h = open_handle("radio0");
    h.set_antenna(1).expect("set_antenna").expect("no device fault");
    assert_eq!(
        h.port().recorded().as_slice(),
        &[
            ev(RecordedCall::SetRts(true), true),
            ev(RecordedCall::Write(String::from("AN1;")), true),
        ]
    );
}

#[test]
fn frequency_steps_send_exact_commands() {
    let mut h = open_handle("radio0");
    h.frequency_down().expect("frequency_down").expect("no device fault");
    h.frequency_up().expect("frequency_up").expect("no device fault");
    assert_eq!(
        h.port().recorded().as_slice(),
        &[
            ev(RecordedCall::SetRts(true), true),
            ev(RecordedCall::Write(String::from("BD;")), true),
            ev(RecordedCall::SetRts(true), true),
            ev(RecordedCall::Write(String::from("BU;")), true),
        ]
    );
}

#[test]
fn reconnect_reopens_the_same_address_with_a_fresh_channel() {
    let mut h = open_handle("radio0");
    h.transmit("AN1;").expect("transmit").expect("no device fault");
    h.port_mut().load_incoming(vec![0x41]);
    for _ in 0..3 {
        h.reconnect().expect("reconnect");
        // Each reconnect opens an independent fresh channel at the
        // original address: the new channel records that address, nothing
        // is recorded on it yet, and the old buffered bytes are discarded.
        assert_eq!(h.port_name(), "radio0");
        assert_eq!(h.port().address(), "radio0");
        assert!(h.port().recorded().is_empty());
        assert_eq!(h.receive().unwrap().unwrap(), "");
        h.reconnect().expect("reconnect");
        assert_eq!(h.port().address(), "radio0");
    }
    assert_eq!(h.port_name(), "radio0");
}

#[test]
fn transmit_reports_no_device_fault_itself() {
    // The classifier is never applied by the handle: a successful transmit
    // is always `Ok(Ok(()))`, and fault detection is the caller's step.
    let mut h = open_handle("radio0");
    let r: ts480::RadioResult<()> = h.transmit("AN1;");
    assert!(matches!(r, Ok(Ok(()))));
}

#[test]
fn transmit_line_failure_aborts_before_the_write() {
    let mut h = open_handle("radio0");
    h.port_mut().set_fail_lines(true);
    match h.transmit("AN1;") {
        Err(e) => assert_eq!(e, ChannelError::Io),
        Ok(_) => panic!("transmit must fail when the line cannot be set"),
    }
    // The failed line assert was recorded; no write was issued after it.
    assert_eq!(
        h.port().recorded().as_slice(),
        &[ev(RecordedCall::SetRts(true), false)]
    );
}

#[test]
fn transmit_write_failure_yields_io_error() {
    let mut h = open_handle("radio0");
    h.port_mut().set_fail_data(true);
    match h.transmit("AN1;") {
        Err(e) => assert_eq!(e, ChannelError::Io),
        Ok(_) => panic!("transmit must fail when the write fails"),
    }
    assert_eq!(
        h.port().recorded().as_slice(),
        &[
            ev(RecordedCall::SetRts(true), true),
            ev(RecordedCall::Write(String::from("AN1;")), false),
        ]
    );
}

#[test]
fn receive_line_failure_aborts_before_the_read() {
    let mut h = open_handle("radio0");
    h.port_mut().set_fail_lines(true);
    match h.receive() {
        Err(e) => assert_eq!(e, ChannelError::Io),
        Ok(_) => panic!("receive must fail when the line cannot be cleared"),
    }
    // The failed deassert was recorded; no read was attempted after it.
    assert_eq!(
        h.port().recorded().as_slice(),
        &[ev(RecordedCall::SetRts(false), false)]
    );
}

#[test]
fn receive_read_failure_yields_io_error() {
    let mut h = open_handle("radio0");
    h.port_mut().set_fail_data(true);
    match h.receive() {
        Err(e) => assert_eq!(e, ChannelError::Io),
        Ok(_) => panic!("receive must fail when the read fails"),
    }
    assert_eq!(
        h.port().recorded().as_slice(),
        &[
            ev(RecordedCall::SetRts(false), true),
            ev(RecordedCall::ReadToEnd, false),
        ]
    );
}

#[test]
fn teardown_resets_lines_once_in_order() {
    let h = open_handle("radio0");
    let port = h.teardown();
    assert_eq!(
        port.recorded().as_slice(),
        &[
            ev(RecordedCall::SetRts(false), true),
            ev(RecordedCall::SetDtr(true), true),
        ]
    );
}

#[test]
fn teardown_resets_lines_even_after_an_error() {
    let mut h = open_handle("radio0");
    h.port_mut().set_fail_lines(true);
    let _ = h.transmit("AN1;"); // fails, leaving the channel in an error state
    let port = h.teardown();
    let recorded = port.recorded();
    // Exactly one transmit-enable deassert and one DTR assert, in that
    // order, at the end; the failed calls were still recorded before them.
    assert_eq!(
        recorded.as_slice(),
        &[
            ev(RecordedCall::SetRts(true), false),
            ev(RecordedCall::SetRts(false), false),
            ev(RecordedCall::SetDtr(true), false),
        ]
    );
    let deasserts = recorded
        .iter()
        .filter(|e| e.call == RecordedCall::SetRts(false))
        .count();
    let dtr_asserts = recorded
        .iter()
        .filter(|e| e.call == RecordedCall::SetDtr(true))
        .count();
    assert_eq!(deasserts, 1);
    assert_eq!(dtr_asserts, 1);
}
