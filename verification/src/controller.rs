//! The remote controllers: one per protocol, each wrapping its encoder and
//! a pulse transmitter.  A controller's `send` encodes the command and
//! hands the pulse sequence to the transmitter; any toggle or address flip
//! commits with the encoding, before the transmission outcome is known.

pub mod combo_direct;
pub mod combo_speed;
pub mod extended;
pub mod factory;
pub mod speed;
