//! Shared pieces of the command protocols: the channel and output selectors
//! and the speed quantizer that maps signed logical speeds onto the 4-bit
//! speed codes carried inside a frame.

pub mod combo_direct;
pub mod combo_pwm;
pub mod extended;
pub mod single_output;

use vstd::prelude::*;

verus! {

/// One of the four logical channels a receiver can listen on, carried as a
/// 2-bit field value.
#[derive(Debug, Clone, Copy, PartialEq, Eq, Structural)]
pub enum Channel {
    One,
    Two,
    Three,
    Four,
}

impl Channel {
    /// The 2-bit field value of this channel.
    pub open spec fn spec_code(self) -> u8 {
        match self {
            Channel::One => 0,
            Channel::Two => 1,
            Channel::Three => 2,
            Channel::Four => 3,
        }
    }

    /// Returns the 2-bit field value of this channel.
    pub fn code(self) -> (r: u8)
        ensures
            r == self.spec_code(),
    {
        match self {
            Channel::One => 0,
            Channel::Two => 1,
            Channel::Three => 2,
            Channel::Four => 3,
        }
    }
}

/// One of the two outputs of a receiver, carried as a 1-bit field value.
#[derive(Debug, Clone, Copy, PartialEq, Eq, Structural)]
pub enum Output {
    /// The primary (A) output.
    RED,
    /// The secondary (B) output.
    BLUE,
}

impl Output {
    /// The 1-bit field value of this output.
    pub open spec fn spec_code(self) -> u8 {
        match self {
            Output::RED => 0,
            Output::BLUE => 1,
        }
    }

    /// Returns the 1-bit field value of this output.
    pub fn code(self) -> (r: u8)
        ensures
            r == self.spec_code(),
    {
        match self {
            Output::RED => 0,
            Output::BLUE => 1,
        }
    }
}

/// The speed quantizer: maps a signed logical speed onto the protocol's
/// unsigned 4-bit code.
///
/// Speeds 1 to 7 map to their own value, 0 maps to 0 (float) and exactly 8
/// maps to 8 (brake then float).  Negative speeds -1 to -7 map to 15 down
/// to 9.  Inputs above 8 clamp to 7 -- the brake code is reachable only by
/// the exact value 8 -- and inputs below -7 clamp to -7, encoded as 9.
pub open spec fn quantize(s: int) -> u8 {
    if s == 0 || s == 8 {
        s as u8
    } else if s > 0 {
        if s > 7 {
            7
        } else {
            s as u8
        }
    } else {
        if s < -7 {
            9
        } else {
            (16 + s) as u8
        }
    }
}

/// Clamping a speed into the accepted domain: values above 8 become 7
/// (braking is only reachable by the exact value 8), values below -7
/// become -7.
pub open spec fn clamp_speed(s: int) -> int {
    if s > 8 {
        7
    } else if s < -7 {
        -7
    } else {
        s
    }
}

/// Law: clamping is idempotent and quantizing a clamped speed equals
/// quantizing the raw speed, so quantization already clamps.  In
/// particular 9 and 7 share the code 7, -8 and -7 share the code 9, 0
/// encodes as 0 and exactly 8 encodes as the brake code 8.
pub proof fn lemma_quantize_clamp(s: int)
    ensures
        clamp_speed(clamp_speed(s)) == clamp_speed(s),
        quantize(clamp_speed(s)) == quantize(s),
        quantize(9) == 7,
        quantize(7) == 7,
        quantize(-8) == 9,
        quantize(-7) == 9,
        quantize(0) == 0,
        quantize(8) == 8,
{
}

/// Maps a user-specified PWM speed into the protocol's 4-bit speed code.
///
/// Acceptable inputs are from -7 to 8: 0 sets the output to float and 8
/// brakes before floating.  Inputs beyond this range are clamped to the
/// nearest valid value (inputs greater than 8 become 7; inputs less than
/// -7 become -7).
pub fn map_speed(speed: i8) -> (r: u8)
    ensures
        r == quantize(speed as int),
        r < 16,
{
    if speed == 0 || speed == 8 {
        speed as u8
    } else if speed > 0 {
        if speed > 7 {
            7
        } else {
            speed as u8
        }
    } else {
        if speed < -7 {
            9
        } else {
            (16 + speed as i16) as u8
        }
    }
}

} // verus!
