//! The extended remote controller: drives one channel through the
//! extended protocol, with brake-then-float, speed stepping and address
//! toggling.

use crate::device::PulseTransmitter;
use crate::errors::Error;
use crate::protocols::extended::{
    extended_next_address, extended_next_toggle, ExtendedCommand, ExtendedProtocol,
};
use crate::protocols::Channel;
use vstd::prelude::*;

verus! {

/// A remote controller for one channel, speaking the extended protocol.
/// It owns the protocol state -- a toggle bit and an address bit -- so the
/// sequence a receiver sees is private to this instance; `send` takes the
/// controller exclusively, which rules out interleaved transmissions.
pub struct ExtendedRemoteController<'a, T: PulseTransmitter> {
    /// The channel every frame is sent on.
    pub channel: Channel,
    /// The transmitter the encoded frames are handed to.
    pub pulse_transmitter: &'a T,
    /// The extended encoder and its toggle and address bits.
    pub protocol: ExtendedProtocol,
}

impl<'a, T: PulseTransmitter> ExtendedRemoteController<'a, T> {
    /// Creates a controller with a fresh encoder: its toggle and address
    /// bits start cleared.
    pub fn new(pulse_transmitter: &'a T, channel: Channel) -> (r: Result<Self, Error>)
        ensures
            r matches Ok(c) && c.channel == channel && c.protocol.toggle == 0
                && c.protocol.address == 0,
    {
        let protocol = ExtendedProtocol::new()?;
        Ok(ExtendedRemoteController { protocol, pulse_transmitter, channel })
    }

    /// Encodes the command and hands the pulse sequence to the
    /// transmitter.  The toggle flips on every send and the address flips
    /// exactly on a toggle-address command, whatever the transmission
    /// outcome; the channel never changes.
    pub fn send(&mut self, cmd: ExtendedCommand) -> (r: Result<(), Error>)
        requires
            old(self).protocol.wf(),
        ensures
            final(self).protocol.wf(),
            final(self).channel == old(self).channel,
            final(self).pulse_transmitter == old(self).pulse_transmitter,
            final(self).protocol.toggle == extended_next_toggle(old(self).protocol.toggle),
            final(self).protocol.address == extended_next_address(
                old(self).protocol.address,
                cmd,
            ),
    {
        let pulses = match self.protocol.encode_cmd(self.channel, cmd) {
            Ok(p) => p,
            Err(e) => {
                return Err(e);
            },
        };
        self.pulse_transmitter.send_pulses(pulses.as_slice())
    }
}

} // verus!
