//! The transmission boundary: the interface a pulse transmitter offers to
//! the controllers, and an emulator that only logs what it would send.
//! Hardware-backed transmitters implement the same interface outside this
//! crate.

use crate::errors::Error;
use std::io::Write;
use vstd::prelude::*;

verus! {

/// A sink for encoded pulse sequences.  `pulses` alternates mark and space
/// durations in microseconds; the implementation reports success or a
/// transmission failure and never inspects the sequence beyond sending it.
pub trait PulseTransmitter {
    /// Sends one pulse sequence, returning an error when transmission
    /// fails.
    fn send_pulses(&self, pulses: &[u32]) -> Result<(), Error>;
}

/// Relies on std's writeln to standard output, to log a pulse sequence;
/// the sequence itself is left untouched.
#[verifier::external_body]
fn emit_pulse_log(pulses: &[u32]) {
    let _ = writeln!(std::io::stdout(), "Simulated send pulses: {:?}", pulses);
}

/// A transmitter for development and tests: it prints each pulse sequence
/// instead of driving hardware, and always reports success.
pub struct PulseTransmitterEmulator;

impl PulseTransmitter for PulseTransmitterEmulator {
    fn send_pulses(&self, pulses: &[u32]) -> (r: Result<(), Error>)
        ensures
            r is Ok,
    {
        emit_pulse_log(pulses);
        Ok(())
    }
}

/// The transmitter used when no hardware-backed implementation is wired
/// in.
pub type DefaultPulseTransmitter = PulseTransmitterEmulator;

} // verus!
