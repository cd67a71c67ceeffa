//! The extended protocol: single-output operations such as brake-then-float
//! and speed increments, plus address toggling.  The encoder owns a toggle
//! bit that flips on every encoded command, and an address bit that flips
//! only on a toggle-address command.
//!
//! Frame fields, most-significant first: Toggle(1), Escape(1, fixed 0),
//! Channel(2), Address(1), Mode(3, fixed 0), Function(4), and the 4-bit
//! checksum.  The combined-direct protocol shares this frame with its own
//! fixed field values, so the frame assembly lives here and is reused there.

use crate::errors::Error;
use crate::protocols::Channel;
use crate::waveform::{encode_frame, frame_pulses, lemma_toggle_bit_difference};
use vstd::prelude::*;

verus! {

/// The extended operations, carried as a sparse 4-bit function code; the
/// unused codes are reserved and never emitted.
#[derive(Debug, Clone, Copy, PartialEq, Eq, Structural)]
pub enum ExtendedCommand {
    BrakeThenFloatOnRedOutput,
    IncrementSpeedOnRedOutput,
    DecrementSpeedOnRedOutput,
    ToggleForwardOrFloatOnBlueOutput,
    ToggleAddress,
    /// Carries no operation beyond its own code; lets a receiver fall back
    /// in sync with the toggle sequence.
    AlignToggle,
}

impl ExtendedCommand {
    /// The 4-bit function code of this operation.
    pub open spec fn spec_code(self) -> u8 {
        match self {
            ExtendedCommand::BrakeThenFloatOnRedOutput => 0,
            ExtendedCommand::IncrementSpeedOnRedOutput => 1,
            ExtendedCommand::DecrementSpeedOnRedOutput => 2,
            ExtendedCommand::ToggleForwardOrFloatOnBlueOutput => 4,
            ExtendedCommand::ToggleAddress => 6,
            ExtendedCommand::AlignToggle => 7,
        }
    }

    /// Returns the 4-bit function code of this operation.
    pub fn code(self) -> (r: u8)
        ensures
            r == self.spec_code(),
    {
        match self {
            ExtendedCommand::BrakeThenFloatOnRedOutput => 0,
            ExtendedCommand::IncrementSpeedOnRedOutput => 1,
            ExtendedCommand::DecrementSpeedOnRedOutput => 2,
            ExtendedCommand::ToggleForwardOrFloatOnBlueOutput => 4,
            ExtendedCommand::ToggleAddress => 6,
            ExtendedCommand::AlignToggle => 7,
        }
    }
}

/// The pulse sequence of the frame shared by the extended and the
/// combined-direct protocols, from its raw field values.
pub open spec fn ext_frame_pulses(
    toggle: u8,
    escape: u8,
    channel: Channel,
    address: u8,
    mode: u8,
    data: u8,
) -> Seq<u32> {
    frame_pulses(
        (toggle * 8 + escape * 4 + channel.spec_code()) as u8,
        (address * 8 + mode) as u8,
        data,
    )
}

/// Renders the shared frame from its raw field values.
pub fn encode_ext_frame(
    toggle: u8,
    escape: u8,
    channel: Channel,
    address: u8,
    mode: u8,
    data: u8,
) -> (r: Vec<u32>)
    requires
        toggle <= 1,
        escape <= 1,
        address <= 1,
        mode < 8,
    ensures
        r@ == ext_frame_pulses(toggle, escape, channel, address, mode, data),
{
    let n1: u8 = toggle * 8 + escape * 4 + channel.code();
    let n2: u8 = address * 8 + mode;
    encode_frame(n1, n2, data)
}

/// The pulse sequence of one extended frame, as a function of the toggle
/// and address state and the command alone.
pub open spec fn extended_pulses(
    toggle: u8,
    address: u8,
    channel: Channel,
    cmd: ExtendedCommand,
) -> Seq<u32> {
    ext_frame_pulses(toggle, 0, channel, address, 0, cmd.spec_code())
}

/// The toggle state after encoding: every extended command flips it.
pub open spec fn extended_next_toggle(toggle: u8) -> u8 {
    (1 - toggle) as u8
}

/// The address state after encoding: only a toggle-address command flips
/// it.
pub open spec fn extended_next_address(address: u8, cmd: ExtendedCommand) -> u8 {
    if cmd is ToggleAddress {
        (1 - address) as u8
    } else {
        address
    }
}

/// The extended encoder and its toggle and address bits.
pub struct ExtendedProtocol {
    /// The toggle bit sent in the next frame; flipped by every command.
    pub toggle: u8,
    /// The address bit sent in the next frame; flipped only by a
    /// toggle-address command.
    pub address: u8,
}

impl ExtendedProtocol {
    /// Both state bits always stay single bits.
    pub open spec fn wf(self) -> bool {
        self.toggle <= 1 && self.address <= 1
    }

    /// Creates a fresh encoder with the toggle and address bits cleared.
    pub fn new() -> (r: Result<Self, Error>)
        ensures
            r matches Ok(p) && p.toggle == 0 && p.address == 0,
    {
        Ok(ExtendedProtocol { toggle: 0, address: 0 })
    }

    /// Encodes an extended command into its pulse sequence, then flips the
    /// toggle bit, and the address bit as well when the command was
    /// toggle-address.
    pub fn encode_cmd(&mut self, channel: Channel, cmd: ExtendedCommand) -> (r: Result<
        Vec<u32>,
        Error,
    >)
        requires
            old(self).wf(),
        ensures
            final(self).wf(),
            r matches Ok(pulses) && pulses@ == extended_pulses(
                old(self).toggle,
                old(self).address,
                channel,
                cmd,
            ),
            final(self).toggle == extended_next_toggle(old(self).toggle),
            final(self).address == extended_next_address(old(self).address, cmd),
    {
        let pulses = encode_ext_frame(self.toggle, 0, channel, self.address, 0, cmd.code());
        self.toggle = 1 - self.toggle;
        if cmd == ExtendedCommand::ToggleAddress {
            self.address = 1 - self.address;
        }
        Ok(pulses)
    }
}

/// Law: the toggle flips on every extended encode and two flips restore
/// it; the address flips exactly on a toggle-address command, so encoding
/// toggle-address twice restores the address while the toggle still
/// advances both times.  The frames of the two toggle states differ in
/// exactly two rendered pulses: the space of the toggle bit and the space
/// of the checksum bit that echoes it.
pub proof fn lemma_extended_toggle_address(
    toggle: u8,
    address: u8,
    channel: Channel,
    cmd: ExtendedCommand,
)
    requires
        toggle <= 1,
        address <= 1,
    ensures
        extended_next_toggle(toggle) == 1 - toggle,
        extended_next_toggle(extended_next_toggle(toggle)) == toggle,
        cmd is ToggleAddress ==> extended_next_address(address, cmd) == 1 - address,
        !(cmd is ToggleAddress) ==> extended_next_address(address, cmd) == address,
        extended_next_address(
            extended_next_address(address, ExtendedCommand::ToggleAddress),
            ExtendedCommand::ToggleAddress,
        ) == address,
        forall|k: int|
            0 <= k < 36 && k != 3 && k != 27 ==> extended_pulses(0, address, channel, cmd)[k]
                == extended_pulses(1, address, channel, cmd)[k],
        extended_pulses(0, address, channel, cmd)[3] != extended_pulses(
            1,
            address,
            channel,
            cmd,
        )[3],
        extended_pulses(0, address, channel, cmd)[27] != extended_pulses(
            1,
            address,
            channel,
            cmd,
        )[27],
{
    let n1 = channel.spec_code();
    let n2 = (address * 8) as u8;
    let n3 = cmd.spec_code();
    lemma_toggle_bit_difference(n1, n2, n3);
    assert((1 * 8 + 0 * 4 + channel.spec_code()) as u8 == (n1 + 8) as u8);
}

} // verus!
