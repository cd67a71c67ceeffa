//! The single-output protocol: controls exactly one output (red or blue) at
//! a time, either with quantized PWM speed steps or with discrete commands.
//! The encoder owns a toggle bit that flips after every PWM command and is
//! left alone by discrete commands, so a receiver can tell a new PWM command
//! from a retransmission.
//!
//! Frame fields, most-significant first: Toggle(1), a fixed 0 bit,
//! Channel(2), an address bit fixed at 0, a fixed 1 bit, Mode(1), Output(1),
//! Data(4), and the 4-bit checksum.

use crate::errors::Error;
use crate::protocols::{map_speed, quantize, Channel, Output};
use crate::waveform::{encode_frame, frame_pulses, lemma_toggle_bit_difference};
use vstd::prelude::*;

verus! {

/// The sixteen discrete single-output operations, carried as a 4-bit code
/// in declaration order.
#[derive(Debug, Clone, Copy, PartialEq, Eq, Structural)]
pub enum SingleOutputDiscrete {
    ToggleFullForward,
    ToggleDirection,
    IncrementNumericalPwm,
    DecrementNumericalPwm,
    IncrementPwm,
    DecrementPwm,
    FullForward,
    FullBackward,
    ToggleFullForwardBackward,
    ClearC1,
    SetC1,
    ToggleC1,
    ClearC2,
    SetC2,
    ToggleC2,
    ToggleFullBackward,
}

impl SingleOutputDiscrete {
    /// The 4-bit field value of this operation.
    pub open spec fn spec_code(self) -> u8 {
        match self {
            SingleOutputDiscrete::ToggleFullForward => 0,
            SingleOutputDiscrete::ToggleDirection => 1,
            SingleOutputDiscrete::IncrementNumericalPwm => 2,
            SingleOutputDiscrete::DecrementNumericalPwm => 3,
            SingleOutputDiscrete::IncrementPwm => 4,
            SingleOutputDiscrete::DecrementPwm => 5,
            SingleOutputDiscrete::FullForward => 6,
            SingleOutputDiscrete::FullBackward => 7,
            SingleOutputDiscrete::ToggleFullForwardBackward => 8,
            SingleOutputDiscrete::ClearC1 => 9,
            SingleOutputDiscrete::SetC1 => 10,
            SingleOutputDiscrete::ToggleC1 => 11,
            SingleOutputDiscrete::ClearC2 => 12,
            SingleOutputDiscrete::SetC2 => 13,
            SingleOutputDiscrete::ToggleC2 => 14,
            SingleOutputDiscrete::ToggleFullBackward => 15,
        }
    }

    /// Returns the 4-bit field value of this operation.
    pub fn code(self) -> (r: u8)
        ensures
            r == self.spec_code(),
    {
        match self {
            SingleOutputDiscrete::ToggleFullForward => 0,
            SingleOutputDiscrete::ToggleDirection => 1,
            SingleOutputDiscrete::IncrementNumericalPwm => 2,
            SingleOutputDiscrete::DecrementNumericalPwm => 3,
            SingleOutputDiscrete::IncrementPwm => 4,
            SingleOutputDiscrete::DecrementPwm => 5,
            SingleOutputDiscrete::FullForward => 6,
            SingleOutputDiscrete::FullBackward => 7,
            SingleOutputDiscrete::ToggleFullForwardBackward => 8,
            SingleOutputDiscrete::ClearC1 => 9,
            SingleOutputDiscrete::SetC1 => 10,
            SingleOutputDiscrete::ToggleC1 => 11,
            SingleOutputDiscrete::ClearC2 => 12,
            SingleOutputDiscrete::SetC2 => 13,
            SingleOutputDiscrete::ToggleC2 => 14,
            SingleOutputDiscrete::ToggleFullBackward => 15,
        }
    }
}

/// A command for the single-output protocol: either a PWM speed for the
/// selected output or one of the discrete operations.
#[derive(Debug, Clone, Copy)]
pub enum SingleOutputCommand {
    /// Sets the output's PWM speed.  Positive values run forward, negative
    /// values run backward, 0 floats and exactly 8 brakes before floating.
    /// Values outside -7 to 8 are clamped.
    PWM(i8),
    /// Triggers one of the discrete single-output operations.
    Discrete(SingleOutputDiscrete),
}

/// The 1-bit mode field of a command: 0 for PWM, 1 for discrete.
pub open spec fn single_output_mode(cmd: SingleOutputCommand) -> u8 {
    match cmd {
        SingleOutputCommand::PWM(_) => 0,
        SingleOutputCommand::Discrete(_) => 1,
    }
}

/// The 4-bit data field of a command: the quantized speed for PWM, the
/// operation's code for discrete.
pub open spec fn single_output_data(cmd: SingleOutputCommand) -> u8 {
    match cmd {
        SingleOutputCommand::PWM(speed) => quantize(speed as int),
        SingleOutputCommand::Discrete(d) => d.spec_code(),
    }
}

/// The pulse sequence of one single-output frame, as a function of the
/// toggle state and the command alone.
pub open spec fn single_output_pulses(
    toggle: u8,
    channel: Channel,
    output: Output,
    cmd: SingleOutputCommand,
) -> Seq<u32> {
    frame_pulses(
        (toggle * 8 + channel.spec_code()) as u8,
        (4 + single_output_mode(cmd) * 2 + output.spec_code()) as u8,
        single_output_data(cmd),
    )
}

/// The toggle state after encoding a command: PWM commands flip it,
/// discrete commands leave it alone.
pub open spec fn single_output_next_toggle(toggle: u8, cmd: SingleOutputCommand) -> u8 {
    match cmd {
        SingleOutputCommand::PWM(_) => (1 - toggle) as u8,
        SingleOutputCommand::Discrete(_) => toggle,
    }
}

/// The single-output encoder and its toggle bit.
pub struct SingleOutputProtocol {
    /// The toggle bit sent in the next frame; flipped by PWM commands.
    pub toggle: u8,
}

impl SingleOutputProtocol {
    /// The toggle bit always stays a single bit.
    pub open spec fn wf(self) -> bool {
        self.toggle <= 1
    }

    /// Creates a fresh encoder with the toggle bit cleared.
    pub fn new() -> (r: Result<Self, Error>)
        ensures
            r matches Ok(p) && p.toggle == 0,
    {
        Ok(SingleOutputProtocol { toggle: 0 })
    }

    /// Encodes a single-output command into its pulse sequence, then
    /// advances the toggle bit when the command was PWM.
    pub fn encode_cmd(
        &mut self,
        channel: Channel,
        output: Output,
        cmd: SingleOutputCommand,
    ) -> (r: Result<Vec<u32>, Error>)
        requires
            old(self).wf(),
        ensures
            final(self).wf(),
            r matches Ok(pulses) && pulses@ == single_output_pulses(
                old(self).toggle,
                channel,
                output,
                cmd,
            ),
            final(self).toggle == single_output_next_toggle(old(self).toggle, cmd),
    {
        let (mode, data) = match cmd {
            SingleOutputCommand::PWM(speed) => (0u8, map_speed(speed)),
            SingleOutputCommand::Discrete(d) => (1u8, d.code()),
        };
        let n1: u8 = self.toggle * 8 + channel.code();
        let n2: u8 = 4 + mode * 2 + output.code();
        let pulses = encode_frame(n1, n2, data);
        if mode == 0 {
            self.toggle = 1 - self.toggle;
        }
        Ok(pulses)
    }
}

/// Law: a PWM command flips the toggle on every encode, and the frames of
/// the two toggle states differ in exactly two rendered pulses: the space
/// of the toggle bit and the space of the checksum bit that echoes it.
/// Everything else -- channel, output, mode and data bits -- is unchanged.
pub proof fn lemma_pwm_toggle_flip(channel: Channel, output: Output, cmd: SingleOutputCommand)
    requires
        cmd is PWM,
    ensures
        single_output_next_toggle(0, cmd) == 1,
        single_output_next_toggle(1, cmd) == 0,
        forall|k: int|
            0 <= k < 36 && k != 3 && k != 27 ==> single_output_pulses(0, channel, output, cmd)[k]
                == single_output_pulses(1, channel, output, cmd)[k],
        single_output_pulses(0, channel, output, cmd)[3] != single_output_pulses(
            1,
            channel,
            output,
            cmd,
        )[3],
        single_output_pulses(0, channel, output, cmd)[27] != single_output_pulses(
            1,
            channel,
            output,
            cmd,
        )[27],
{
    let n1 = channel.spec_code();
    let n2 = (4 + single_output_mode(cmd) * 2 + output.spec_code()) as u8;
    let n3 = single_output_data(cmd);
    lemma_toggle_bit_difference(n1, n2, n3);
    assert((1 * 8 + channel.spec_code()) as u8 == (n1 + 8) as u8);
}

/// Law: a discrete command never advances the toggle, so consecutive
/// encodes of the same discrete command produce identical pulse sequences.
pub proof fn lemma_discrete_keeps_toggle(
    toggle: u8,
    channel: Channel,
    output: Output,
    d: SingleOutputDiscrete,
)
    ensures
        single_output_next_toggle(toggle, SingleOutputCommand::Discrete(d)) == toggle,
        single_output_pulses(
            single_output_next_toggle(toggle, SingleOutputCommand::Discrete(d)),
            channel,
            output,
            SingleOutputCommand::Discrete(d),
        ) == single_output_pulses(toggle, channel, output, SingleOutputCommand::Discrete(d)),
{
}

} // verus!
