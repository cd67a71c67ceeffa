//! The combined-PWM protocol: sets the quantized PWM speed of both outputs
//! of a channel at once.  It is stateless -- every encode is a pure
//! function of channel and command.
//!
//! Frame fields, most-significant first: an address bit fixed at 0, a
//! fixed 1 bit, Channel(2), the blue output's speed code(4), the red
//! output's speed code(4), and the 4-bit checksum.

use crate::errors::Error;
use crate::protocols::{map_speed, quantize, Channel};
use crate::waveform::{encode_frame, frame_pulses};
use vstd::prelude::*;

verus! {

/// A combined-PWM command: one signed speed per output, each quantized
/// independently.
#[derive(Debug, Clone, Copy)]
pub struct ComboPwmCommand {
    /// PWM speed for the primary (red) output, valid from -7 to 8: 0
    /// floats, exactly 8 brakes before floating, values beyond the range
    /// are clamped.
    pub speed_red: i8,
    /// PWM speed for the secondary (blue) output, with the same range.
    pub speed_blue: i8,
}

/// The pulse sequence of one combined-PWM frame, a pure function of
/// channel and command: the same inputs render the same frame on every
/// call.
pub open spec fn combo_pwm_pulses(channel: Channel, cmd: ComboPwmCommand) -> Seq<u32> {
    frame_pulses(
        (4 + channel.spec_code()) as u8,
        quantize(cmd.speed_blue as int),
        quantize(cmd.speed_red as int),
    )
}

/// The combined-PWM encoder.  It holds no state: encoding is deterministic
/// in channel and command.
pub struct ComboPwmProtocol {}

impl ComboPwmProtocol {
    /// Creates the stateless encoder.
    pub fn new() -> (r: Result<Self, Error>)
        ensures
            r is Ok,
    {
        Ok(ComboPwmProtocol {})
    }

    /// Encodes a combined-PWM command into its pulse sequence.  The result
    /// depends on the channel and the command alone, so repeated calls
    /// with equal inputs produce identical sequences.
    pub fn encode_cmd(&self, channel: Channel, cmd: ComboPwmCommand) -> (r: Result<
        Vec<u32>,
        Error,
    >)
        ensures
            r matches Ok(pulses) && pulses@ == combo_pwm_pulses(channel, cmd),
    {
        let n1: u8 = 4 + channel.code();
        let output_b: u8 = map_speed(cmd.speed_blue);
        let output_a: u8 = map_speed(cmd.speed_red);
        let pulses = encode_frame(n1, output_b, output_a);
        Ok(pulses)
    }
}

} // verus!
