use brickbeam::{Channel, ExtendedCommand, ExtendedProtocol};

#[test]
fn test_extended_encode_cmd() {
    let mut proto = ExtendedProtocol::new().unwrap();
    let pulses = proto
        .encode_cmd(Channel::One, ExtendedCommand::BrakeThenFloatOnRedOutput)
        .expect("Encoding should succeed");
    assert!(!pulses.is_empty());
}

#[test]
fn test_extended_brake_command_structure() {
    let mut proto = ExtendedProtocol::new().unwrap();
    let pulses = proto
        .encode_cmd(Channel::One, ExtendedCommand::BrakeThenFloatOnRedOutput)
        .expect("Encoding should succeed");
    assert!(!pulses.is_empty());

    assert_eq!(pulses.len(), 36, "Unexpected pulse sequence length");

    let expected: Vec<u32> = vec![
        157, 1026, 157, 263, 157, 263, 157, 263, 157, 263, 157, 263, 157, 263, 157, 263, 157, 263,
        157, 263, 157, 263, 157, 263, 157, 263, 157, 552, 157, 552, 157, 552, 157, 552, 157, 1026,
    ];
    assert_eq!(pulses, expected, "Pulse sequence does not match expected");
}

#[test]
fn test_extended_toggle_forward_command_structure() {
    let mut proto = ExtendedProtocol::new().unwrap();
    let pulses = proto
        .encode_cmd(
            Channel::One,
            ExtendedCommand::ToggleForwardOrFloatOnBlueOutput,
        )
        .expect("Encoding should succeed");
    assert!(!pulses.is_empty());

    assert_eq!(pulses.len(), 36, "Unexpected pulse sequence length");

    let expected: Vec<u32> = vec![
        157, 1026, 157, 263, 157, 263, 157, 263, 157, 263, 157, 263, 157, 263, 157, 263, 157, 263,
        157, 263, 157, 552, 157, 263, 157, 263, 157, 552, 157, 263, 157, 552, 157, 552, 157, 1026,
    ];
    assert_eq!(pulses, expected, "Pulse sequence does not match expected");
}

#[test]
fn test_extended_toggle_address_changes_internal_state() {
    let mut proto = ExtendedProtocol::new().unwrap();
    let initial_address = proto.address;
    // Invoke ToggleAddress command and verify that internal address is toggled.
    let pulses = proto
        .encode_cmd(Channel::One, ExtendedCommand::ToggleAddress)
        .expect("Encoding should succeed");
    // Ensure that pulses are produced.
    assert!(!pulses.is_empty());
    // Check that the address has been toggled.
    assert_eq!(
        proto.address,
        1 - initial_address,
        "ToggleAddress should invert the internal address"
    );

    // Invoke the command a second time to toggle it back.
    let _ = proto
        .encode_cmd(Channel::One, ExtendedCommand::ToggleAddress)
        .expect("Encoding should succeed");
    assert_eq!(
        proto.address, initial_address,
        "ToggleAddress should invert the internal address back to its original state"
    );
}

#[test]
fn test_extended_toggle_always_flips() {
    // Every extended command advances the toggle; for a non-ToggleAddress
    // command the two consecutive frames differ exactly at the toggle
    // bit's space and the checksum bit that echoes it.
    let mut proto = ExtendedProtocol::new().unwrap();
    let first = proto
        .encode_cmd(Channel::One, ExtendedCommand::AlignToggle)
        .unwrap();
    assert_eq!(proto.toggle, 1);
    let second = proto
        .encode_cmd(Channel::One, ExtendedCommand::AlignToggle)
        .unwrap();
    assert_eq!(proto.toggle, 0);
    for k in 0..36 {
        if k == 3 || k == 27 {
            assert_ne!(first[k], second[k], "pulse {} should carry the flip", k);
        } else {
            assert_eq!(first[k], second[k], "pulse {} should be unchanged", k);
        }
    }
}

#[test]
fn test_extended_toggle_address_twice_restores_address() {
    // ToggleAddress flips the address each time, so twice restores it,
    // while the toggle still advances on both calls.
    let mut proto = ExtendedProtocol::new().unwrap();
    proto
        .encode_cmd(Channel::Two, ExtendedCommand::ToggleAddress)
        .unwrap();
    assert_eq!(proto.address, 1);
    assert_eq!(proto.toggle, 1);
    proto
        .encode_cmd(Channel::Two, ExtendedCommand::ToggleAddress)
        .unwrap();
    assert_eq!(proto.address, 0);
    assert_eq!(proto.toggle, 0);
    // A non-ToggleAddress command leaves the address alone.
    proto
        .encode_cmd(Channel::Two, ExtendedCommand::IncrementSpeedOnRedOutput)
        .unwrap();
    assert_eq!(proto.address, 0);
    assert_eq!(proto.toggle, 1);
}
