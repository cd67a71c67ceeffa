//! The combined-speed remote controller: drives both outputs of one
//! channel at once through the combined-PWM protocol.

use crate::device::PulseTransmitter;
use crate::errors::Error;
use crate::protocols::combo_pwm::{ComboPwmCommand, ComboPwmProtocol};
use crate::protocols::Channel;
use vstd::prelude::*;

verus! {

/// A remote controller for both outputs of one channel, speaking the
/// combined-PWM protocol.  The protocol is stateless, so every `send`
/// transmits a frame determined by the channel and the command alone.
pub struct ComboSpeedRemoteController<'a, T: PulseTransmitter> {
    /// The channel every frame is sent on.
    pub channel: Channel,
    /// The transmitter the encoded frames are handed to.
    pub pulse_transmitter: &'a T,
    /// The stateless combined-PWM encoder.
    pub protocol: ComboPwmProtocol,
}

impl<'a, T: PulseTransmitter> ComboSpeedRemoteController<'a, T> {
    /// Creates a controller for the given channel.
    pub fn new(pulse_transmitter: &'a T, channel: Channel) -> (r: Result<Self, Error>)
        ensures
            r matches Ok(c) && c.channel == channel,
    {
        let protocol = ComboPwmProtocol::new()?;
        Ok(ComboSpeedRemoteController { protocol, pulse_transmitter, channel })
    }

    /// Encodes the command and hands the pulse sequence to the
    /// transmitter; the channel never changes and no state advances.
    pub fn send(&mut self, cmd: ComboPwmCommand) -> (r: Result<(), Error>)
        ensures
            final(self).channel == old(self).channel,
            final(self).pulse_transmitter == old(self).pulse_transmitter,
    {
        let pulses = match self.protocol.encode_cmd(self.channel, cmd) {
            Ok(p) => p,
            Err(e) => {
                return Err(e);
            },
        };
        self.pulse_transmitter.send_pulses(pulses.as_slice())
    }
}

} // verus!
