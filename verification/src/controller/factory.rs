//! The factory that wires a pulse transmitter to the remote controllers.

use crate::controller::combo_direct::DirectRemoteController;
use crate::controller::combo_speed::ComboSpeedRemoteController;
use crate::controller::extended::ExtendedRemoteController;
use crate::controller::speed::SpeedRemoteController;
use crate::device::{PulseTransmitter, PulseTransmitterEmulator};
use crate::errors::Error;
use crate::protocols::{Channel, Output};
use vstd::prelude::*;

verus! {

/// The entry point of the library: owns a pulse transmitter and creates
/// the remote controllers that share it.
pub struct BrickBeam<T> {
    /// The transmitter every controller created here will send through.
    pub pulse_transmitter: T,
}

impl BrickBeam<PulseTransmitterEmulator> {
    /// Creates a factory backed by the logging emulator.  The device path
    /// is accepted for interface compatibility with hardware-backed
    /// factories, which live outside this crate, and is not opened here.
    pub fn new(_tx_device_path: &str) -> (r: Result<Self, Error>)
        ensures
            r is Ok,
    {
        Ok(BrickBeam { pulse_transmitter: PulseTransmitterEmulator })
    }
}

impl<T: PulseTransmitter> BrickBeam<T> {
    /// Creates a speed remote controller for one output of one channel,
    /// with a fresh toggle bit.
    pub fn create_speed_remote_controller(&self, channel: Channel, output: Output) -> (r: Result<
        SpeedRemoteController<'_, T>,
        Error,
    >)
        ensures
            r matches Ok(c) && c.channel == channel && c.output == output && c.protocol.toggle
                == 0,
    {
        SpeedRemoteController::new(&self.pulse_transmitter, channel, output)
    }

    /// Creates a combined-speed remote controller for one channel.
    pub fn create_combo_speed_remote_controller(&self, channel: Channel) -> (r: Result<
        ComboSpeedRemoteController<'_, T>,
        Error,
    >)
        ensures
            r matches Ok(c) && c.channel == channel,
    {
        ComboSpeedRemoteController::new(&self.pulse_transmitter, channel)
    }

    /// Creates a direct remote controller for one channel.
    pub fn create_direct_remote_controller(&self, channel: Channel) -> (r: Result<
        DirectRemoteController<'_, T>,
        Error,
    >)
        ensures
            r matches Ok(c) && c.channel == channel,
    {
        DirectRemoteController::new(&self.pulse_transmitter, channel)
    }

    /// Creates an extended remote controller for one channel, with fresh
    /// toggle and address bits.
    pub fn create_extended_remote_controller(&self, channel: Channel) -> (r: Result<
        ExtendedRemoteController<'_, T>,
        Error,
    >)
        ensures
            r matches Ok(c) && c.channel == channel && c.protocol.toggle == 0
                && c.protocol.address == 0,
    {
        ExtendedRemoteController::new(&self.pulse_transmitter, channel)
    }
}

} // verus!
