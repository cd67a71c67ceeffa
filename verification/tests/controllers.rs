use brickbeam::{
    BrickBeam, Channel, ComboDirectCommand, ComboPwmCommand, ComboSpeedRemoteController,
    DirectRemoteController, DirectState, Error, ExtendedCommand, ExtendedRemoteController, Output,
    PulseTransmitter, SingleOutputCommand, SingleOutputDiscrete, SpeedRemoteController,
};

/// A mock transmitter that always succeeds.
struct MockTransmitterSuccess;

impl PulseTransmitter for MockTransmitterSuccess {
    fn send_pulses(&self, pulses: &[u32]) -> Result<(), Error> {
        // Check that pulses are not empty
        assert!(!pulses.is_empty());
        Ok(())
    }
}

/// A mock transmitter that always fails.
struct MockTransmitterFail;

impl PulseTransmitter for MockTransmitterFail {
    fn send_pulses(&self, _pulses: &[u32]) -> Result<(), Error> {
        Err(Error::Transmitting("Mock failure".to_string()))
    }
}

#[test]
fn combo_direct_test_combo_direct_all_states() {
    // This covers all pairs of (red, blue) states.
    let transmitter = MockTransmitterSuccess;
    let mut controller = DirectRemoteController::new(&transmitter, Channel::One)
        .expect("Should create DirectRemoteController");

    let states = [
        DirectState::Float,
        DirectState::Forward,
        DirectState::Backward,
        DirectState::Brake,
    ];

    for &red_state in &states {
        for &blue_state in &states {
            let cmd = ComboDirectCommand {
                red: red_state,
                blue: blue_state,
            };
            let result = controller.send(cmd);
            assert!(
                result.is_ok(),
                "Command failed for red={:?} blue={:?}",
                red_state,
                blue_state
            );
        }
    }
}

#[test]
fn test_combo_direct_send_fails() {
    // Ensure we handle transmitter errors gracefully
    let transmitter = MockTransmitterFail;
    let mut controller = DirectRemoteController::new(&transmitter, Channel::One)
        .expect("Should create DirectRemoteController");

    let cmd = ComboDirectCommand {
        red: DirectState::Forward,
        blue: DirectState::Float,
    };
    let result = controller.send(cmd);
    assert!(result.is_err(), "Expected error from failing transmitter");
    match result {
        Err(Error::Transmitting(msg)) => assert!(msg.contains("Mock failure")),
        _ => panic!("Unexpected error variant"),
    }
}

#[test]
fn test_combo_speed_various_speeds() {
    let transmitter = MockTransmitterSuccess;
    let mut controller = ComboSpeedRemoteController::new(&transmitter, Channel::One)
        .expect("Should create ComboSpeedRemoteController");

    // Test boundary and typical speeds on each output
    let speeds = [-7, -1, 0, 1, 7, 8];
    for &red_speed in &speeds {
        for &blue_speed in &speeds {
            let cmd = ComboPwmCommand {
                speed_red: red_speed,
                speed_blue: blue_speed,
            };
            let result = controller.send(cmd);
            assert!(
                result.is_ok(),
                "ComboPwmCommand failed for red={} blue={}",
                red_speed,
                blue_speed
            );
        }
    }
}

#[test]
fn test_combo_speed_send_fails() {
    let transmitter = MockTransmitterFail;
    let mut controller = ComboSpeedRemoteController::new(&transmitter, Channel::One)
        .expect("Should create ComboSpeedRemoteController");

    let cmd = ComboPwmCommand {
        speed_red: 5,
        speed_blue: -3,
    };
    let result = controller.send(cmd);
    assert!(result.is_err(), "Expected error from failing transmitter");
    match result {
        Err(Error::Transmitting(msg)) => assert!(msg.contains("Mock failure")),
        _ => panic!("Unexpected error variant"),
    }
}

#[test]
fn test_extended_all_commands() {
    let transmitter = MockTransmitterSuccess;
    let mut controller = ExtendedRemoteController::new(&transmitter, Channel::One)
        .expect("Should create ExtendedRemoteController");

    let commands = [
        ExtendedCommand::BrakeThenFloatOnRedOutput,
        ExtendedCommand::IncrementSpeedOnRedOutput,
        ExtendedCommand::DecrementSpeedOnRedOutput,
        ExtendedCommand::ToggleForwardOrFloatOnBlueOutput,
        ExtendedCommand::ToggleAddress,
        ExtendedCommand::AlignToggle,
    ];
    for cmd in commands {
        let result = controller.send(cmd);
        assert!(result.is_ok(), "Extended command failed for {:?}", cmd);
    }
}

#[test]
fn test_extended_toggle_address_sequence() {
    let transmitter = MockTransmitterSuccess;
    let mut controller = ExtendedRemoteController::new(&transmitter, Channel::One)
        .expect("Should create ExtendedRemoteController");

    controller.send(ExtendedCommand::ToggleAddress).unwrap();
    controller.send(ExtendedCommand::ToggleAddress).unwrap();
}

#[test]
fn test_extended_send_fails() {
    let transmitter = MockTransmitterFail;
    let mut controller = ExtendedRemoteController::new(&transmitter, Channel::One)
        .expect("Should create ExtendedRemoteController");

    let result = controller.send(ExtendedCommand::BrakeThenFloatOnRedOutput);
    assert!(result.is_err(), "Expected error from failing transmitter");
    match result {
        Err(Error::Transmitting(msg)) => assert!(msg.contains("Mock failure")),
        _ => panic!("Unexpected error variant"),
    }
}

#[test]
fn test_brick_beam_factory() {
    // With no hardware wired in, this just uses the emulator.
    let beam = BrickBeam::new("/dev/lirc0").unwrap();
    beam.create_speed_remote_controller(Channel::One, Output::RED)
        .unwrap();
    beam.create_combo_speed_remote_controller(Channel::Two)
        .unwrap();
    beam.create_direct_remote_controller(Channel::Three)
        .unwrap();
    beam.create_extended_remote_controller(Channel::Four)
        .unwrap();
    // pass if all created successfully
}

struct FailingTransmitter;

impl PulseTransmitter for FailingTransmitter {
    fn send_pulses(&self, _pulses: &[u32]) -> Result<(), Error> {
        Err(Error::Transmitting("Mocked failure".to_string()))
    }
}

#[test]
fn test_send_fails() {
    let beam = BrickBeam {
        pulse_transmitter: FailingTransmitter,
    };
    let mut motor = beam
        .create_speed_remote_controller(Channel::One, Output::RED)
        .unwrap();
    let result = motor.send(SingleOutputCommand::PWM(5));
    assert!(result.is_err());
    match result {
        Err(Error::Transmitting(msg)) => assert!(msg.contains("Mocked failure")),
        _ => panic!("Expected Transmitting error"),
    }
}

#[test]
fn test_speed_remote_controller_pwm_success() {
    let transmitter = MockTransmitterSuccess;
    let mut controller = SpeedRemoteController::new(&transmitter, Channel::One, Output::RED)
        .expect("Should create SpeedRemoteController");
    let result = controller.send(SingleOutputCommand::PWM(5));
    assert!(result.is_ok());
}

#[test]
fn test_speed_remote_controller_discrete_success() {
    let transmitter = MockTransmitterSuccess;
    let mut controller = SpeedRemoteController::new(&transmitter, Channel::One, Output::BLUE)
        .expect("Should create SpeedRemoteController");
    let result = controller.send(SingleOutputCommand::Discrete(
        SingleOutputDiscrete::ToggleDirection,
    ));
    assert!(result.is_ok());
}

#[test]
fn test_speed_remote_controller_failure() {
    let transmitter = MockTransmitterFail;
    let mut controller = SpeedRemoteController::new(&transmitter, Channel::One, Output::RED)
        .expect("Should create SpeedRemoteController");
    let result = controller.send(SingleOutputCommand::PWM(5));
    assert!(result.is_err());
    if let Err(Error::Transmitting(msg)) = result {
        assert!(msg.contains("Mock failure"));
    } else {
        panic!("Unexpected error variant");
    }
}
