//! The combined-direct protocol: sets both outputs of a channel at once to
//! one of four discrete states each.  It is stateless -- every encode is a
//! pure function of channel and command -- and reuses the extended frame
//! with the toggle and escape bits fixed at 0, the address bit fixed at 0
//! and the mode field fixed at 1.

use crate::errors::Error;
use crate::protocols::extended::{encode_ext_frame, ext_frame_pulses};
use crate::protocols::Channel;
use vstd::prelude::*;

verus! {

/// The four discrete states of one output, carried as a 2-bit code.
#[derive(Debug, Clone, Copy, PartialEq, Eq, Structural)]
pub enum DirectState {
    Float,
    Forward,
    Backward,
    Brake,
}

impl DirectState {
    /// The 2-bit field value of this state.
    pub open spec fn spec_code(self) -> u8 {
        match self {
            DirectState::Float => 0,
            DirectState::Forward => 1,
            DirectState::Backward => 2,
            DirectState::Brake => 3,
        }
    }

    /// Returns the 2-bit field value of this state.
    pub fn code(self) -> (r: u8)
        ensures
            r == self.spec_code(),
    {
        match self {
            DirectState::Float => 0,
            DirectState::Forward => 1,
            DirectState::Backward => 2,
            DirectState::Brake => 3,
        }
    }
}

/// A combined-direct command: one discrete state per output.
#[derive(Debug, Clone, Copy)]
pub struct ComboDirectCommand {
    /// The state for the primary (red) output; it occupies the low two
    /// bits of the data field.
    pub red: DirectState,
    /// The state for the secondary (blue) output; it occupies the high two
    /// bits of the data field.
    pub blue: DirectState,
}

/// The pulse sequence of one combined-direct frame, a pure function of
/// channel and command: the same inputs render the same frame on every
/// call.
pub open spec fn combo_direct_pulses(channel: Channel, cmd: ComboDirectCommand) -> Seq<u32> {
    ext_frame_pulses(
        0,
        0,
        channel,
        0,
        1,
        (cmd.blue.spec_code() * 4 + cmd.red.spec_code()) as u8,
    )
}

/// The combined-direct encoder.  It holds no state: encoding is
/// deterministic in channel and command.
pub struct ComboDirectProtocol {}

impl ComboDirectProtocol {
    /// Creates the stateless encoder.
    pub fn new() -> (r: Result<Self, Error>)
        ensures
            r is Ok,
    {
        Ok(ComboDirectProtocol {})
    }

    /// Encodes a combined-direct command into its pulse sequence.  The
    /// result depends on the channel and the command alone, so repeated
    /// calls with equal inputs produce identical sequences.
    pub fn encode_cmd(&self, channel: Channel, cmd: ComboDirectCommand) -> (r: Result<
        Vec<u32>,
        Error,
    >)
        ensures
            r matches Ok(pulses) && pulses@ == combo_direct_pulses(channel, cmd),
    {
        let data: u8 = cmd.blue.code() * 4 + cmd.red.code();
        let pulses = encode_ext_frame(0, 0, channel, 0, 1, data);
        Ok(pulses)
    }
}

} // verus!
