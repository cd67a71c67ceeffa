//! The speed remote controller: drives one output of one channel through
//! the single-output protocol.

use crate::device::PulseTransmitter;
use crate::errors::Error;
use crate::protocols::single_output::{
    single_output_next_toggle, SingleOutputCommand, SingleOutputProtocol,
};
use crate::protocols::{Channel, Output};
use vstd::prelude::*;

verus! {

/// A remote controller for one output of one channel, speaking the
/// single-output protocol.  It owns the protocol state, so the toggle
/// sequence a receiver sees is private to this instance; `send` takes the
/// controller exclusively, which rules out interleaved transmissions.
pub struct SpeedRemoteController<'a, T: PulseTransmitter> {
    /// The channel every frame is sent on.
    pub channel: Channel,
    /// The output every frame addresses.
    pub output: Output,
    /// The transmitter the encoded frames are handed to.
    pub pulse_transmitter: &'a T,
    /// The single-output encoder and its toggle bit.
    pub protocol: SingleOutputProtocol,
}

impl<'a, T: PulseTransmitter> SpeedRemoteController<'a, T> {
    /// Creates a controller with a fresh encoder: its toggle bit starts
    /// cleared.
    pub fn new(pulse_transmitter: &'a T, channel: Channel, output: Output) -> (r: Result<
        Self,
        Error,
    >)
        ensures
            r matches Ok(c) && c.channel == channel && c.output == output && c.protocol.toggle
                == 0,
    {
        let protocol = SingleOutputProtocol::new()?;
        Ok(SpeedRemoteController { protocol, pulse_transmitter, channel, output })
    }

    /// Encodes the command and hands the pulse sequence to the
    /// transmitter.  The toggle advances exactly when the command was PWM,
    /// whatever the transmission outcome; channel and output never change.
    pub fn send(&mut self, cmd: SingleOutputCommand) -> (r: Result<(), Error>)
        requires
            old(self).protocol.wf(),
        ensures
            final(self).protocol.wf(),
            final(self).channel == old(self).channel,
            final(self).output == old(self).output,
            final(self).pulse_transmitter == old(self).pulse_transmitter,
            final(self).protocol.toggle == single_output_next_toggle(
                old(self).protocol.toggle,
                cmd,
            ),
    {
        let pulses = match self.protocol.encode_cmd(self.channel, self.output, cmd) {
            Ok(p) => p,
            Err(e) => {
                return Err(e);
            },
        };
        self.pulse_transmitter.send_pulses(pulses.as_slice())
    }
}

} // verus!
