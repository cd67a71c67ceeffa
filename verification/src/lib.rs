//! Encoders for a family of infrared remote-control protocols that drive
//! two-output motor receivers: single-output PWM/discrete commands, combined
//! two-output PWM and directional commands, and an extended command set with
//! toggle and address state.  Every encoder turns a command into a pulse
//! sequence (durations in microseconds, mark and space alternating) that a
//! transmitter can replay on a 38 kHz infrared carrier.

mod controller;
mod device;
mod errors;
mod protocols;
mod waveform;

pub use controller::combo_direct::DirectRemoteController;
pub use controller::combo_speed::ComboSpeedRemoteController;
pub use controller::extended::ExtendedRemoteController;
pub use controller::factory::BrickBeam;
pub use controller::speed::SpeedRemoteController;
pub use device::{DefaultPulseTransmitter, PulseTransmitter, PulseTransmitterEmulator};
pub use errors::Error;
pub use protocols::{map_speed, Channel, Output};
pub use protocols::{clamp_speed, lemma_quantize_clamp, quantize};
pub use protocols::combo_direct::{
    combo_direct_pulses, ComboDirectCommand, ComboDirectProtocol, DirectState,
};
pub use protocols::combo_pwm::{combo_pwm_pulses, ComboPwmCommand, ComboPwmProtocol};
pub use protocols::extended::{
    ext_frame_pulses, extended_next_address, extended_next_toggle, extended_pulses,
    lemma_extended_toggle_address, ExtendedCommand, ExtendedProtocol,
};
pub use protocols::single_output::{
    lemma_discrete_keeps_toggle, lemma_pwm_toggle_flip, single_output_data, single_output_mode,
    single_output_next_toggle, single_output_pulses, SingleOutputCommand, SingleOutputDiscrete,
    SingleOutputProtocol,
};
pub use waveform::{
    bit_pair, encode_frame, frame_bit, frame_nibble, frame_pulses, lemma_frame_checksum,
    lemma_frame_shape, lemma_toggle_bit_difference, lrc, nibble_pulses,
};
