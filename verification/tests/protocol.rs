//! The command encoder and the response classifier, on concrete values.

use ts480::{check_for_error, decode_ascii, Command, RadioError};

#[test]
fn set_antenna_renders_first_connector() {
    assert_eq!(Command::SetAntenna(0).encode(), "AN0;");
}

#[test]
fn set_antenna_renders_second_connector() {
    assert_eq!(Command::SetAntenna(1).encode(), "AN1;");
}

#[test]
fn set_antenna_renders_out_of_range_selectors_verbatim() {
    assert_eq!(Command::SetAntenna(7).encode(), "AN7;");
    assert_eq!(Command::SetAntenna(10).encode(), "AN10;");
    assert_eq!(Command::SetAntenna(42).encode(), "AN42;");
    assert_eq!(Command::SetAntenna(100).encode(), "AN100;");
    assert_eq!(Command::SetAntenna(255).encode(), "AN255;");
}

#[test]
fn frequency_steps_render_exactly() {
    assert_eq!(Command::FrequencyDown.encode(), "BD;");
    assert_eq!(Command::FrequencyUp.encode(), "BU;");
}

#[test]
fn transmit_payload_passes_through_unmodified() {
    assert_eq!(
        Command::Transmit(String::from("FA00007000000;")).encode(),
        "FA00007000000;"
    );
    // The payload is not required to end in `;`, and none is added.
    assert_eq!(Command::Transmit(String::from("AN")).encode(), "AN");
    assert_eq!(Command::Transmit(String::new()).encode(), "");
}

#[test]
fn classifier_maps_syntax_marker() {
    assert_eq!(check_for_error("?;"), Some(RadioError::SyntaxOrStatus));
}

#[test]
fn classifier_maps_comm_error_marker() {
    assert_eq!(check_for_error("E;"), Some(RadioError::CommError));
}

#[test]
fn classifier_maps_incomplete_marker() {
    assert_eq!(check_for_error("O;"), Some(RadioError::ProcIncomplete));
}

#[test]
fn classifier_treats_other_text_as_data() {
    assert_eq!(check_for_error("AN1;"), None);
    assert_eq!(check_for_error(""), None);
    assert_eq!(check_for_error("e;"), None);
}

#[test]
fn classifier_does_no_prefix_matching() {
    assert_eq!(check_for_error("?;x"), None);
    assert_eq!(check_for_error("E;;"), None);
    assert_eq!(check_for_error("?"), None);
}

#[test]
fn decode_keeps_ascii_bytes_as_characters() {
    assert_eq!(decode_ascii(&[0x41, 0x4E, 0x31, 0x3B]), "AN1;");
    assert_eq!(decode_ascii(&[]), "");
}

#[test]
fn decode_drops_non_ascii_bytes_without_substitute() {
    assert_eq!(decode_ascii(&[0x41, 0xFF, 0x42, 0x3B]), "AB;");
    assert_eq!(decode_ascii(&[0x80, 0xFF]), "");
    assert_eq!(decode_ascii(&[0x7F, 0x80]), "\x7f");
}
