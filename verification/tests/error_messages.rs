use brickbeam::Error;

#[test]
fn test_error_display_io() {
    let io_err = Error::Io("test error".to_string());
    assert!(io_err.describe().contains("IO error"));
}

#[test]
fn test_error_display_protocol() {
    let proto_err = Error::ProtocolError("encoding failed".to_string());
    assert!(proto_err.describe().contains("Protocol error"));
}

#[test]
fn test_error_display_transmitting() {
    let tx_err = Error::Transmitting("transmission failed".to_string());
    assert!(tx_err.describe().contains("Pulse sending error"));
}

#[test]
fn test_error_describe_keeps_detail_message() {
    let tx_err = Error::Transmitting("transmission failed".to_string());
    assert_eq!(tx_err.describe(), "Pulse sending error: transmission failed");
    let io_err = Error::Io("test error".to_string());
    assert_eq!(io_err.describe(), "IO error: test error");
    let proto_err = Error::ProtocolError("encoding failed".to_string());
    assert_eq!(proto_err.describe(), "Protocol error: encoding failed");
}
