//! The shared waveform layer: how a frame's payload nibbles are checksummed
//! and rendered into a pulse sequence.
//!
//! All four protocols share one physical encoding on a 38 kHz carrier with a
//! base unit of one carrier period (about 26.3158 microseconds, truncated to
//! whole microseconds when rendered).  Every logical bit is a mark of 6 units
//! (157 us) followed by a space of 10 units (263 us) for a 0 or 21 units
//! (552 us) for a 1.  A frame is a start burst of mark 6 and space 39 units
//! (157 us, 1026 us), then the 16 payload bits most-significant first, then
//! an identical stop burst.  The payload is three protocol-specific nibbles
//! followed by a 4-bit longitudinal redundancy check over them.

use vstd::prelude::*;

verus! {

/// The mark-space pulse pair that renders one logical bit: the mark is 6
/// units, the space 10 units for a 0 bit and 21 units for a 1 bit.
pub open spec fn bit_pair(b: u8) -> Seq<u32> {
    if b == 0 {
        seq![157u32, 263u32]
    } else {
        seq![157u32, 552u32]
    }
}

/// The pulse pairs of one nibble, most-significant bit first.  Only the low
/// four bits of `n` take part.
pub open spec fn nibble_pulses(n: u8) -> Seq<u32> {
    bit_pair((n >> 3) & 1) + bit_pair((n >> 2) & 1) + bit_pair((n >> 1) & 1) + bit_pair(n & 1)
}

/// The 4-bit longitudinal redundancy check over a frame's three payload
/// nibbles: their XOR fold, finalized by XOR with 0xF.
pub open spec fn lrc(n1: u8, n2: u8, n3: u8) -> u8 {
    0xf ^ (n1 ^ n2 ^ n3)
}

/// The full pulse sequence of a frame with payload nibbles `n1`, `n2`, `n3`:
/// start burst, the three nibbles and their checksum most-significant bit
/// first, stop burst.
pub open spec fn frame_pulses(n1: u8, n2: u8, n3: u8) -> Seq<u32> {
    seq![157u32, 1026u32] + nibble_pulses(n1) + nibble_pulses(n2) + nibble_pulses(n3)
        + nibble_pulses(lrc(n1, n2, n3)) + seq![157u32, 1026u32]
}

/// The pulse pairs of one nibble, spelled out index by index.
proof fn lemma_nibble_index(n: u8)
    ensures
        nibble_pulses(n).len() == 8,
        nibble_pulses(n)[0] == 157,
        nibble_pulses(n)[2] == 157,
        nibble_pulses(n)[4] == 157,
        nibble_pulses(n)[6] == 157,
        nibble_pulses(n)[1] == bit_pair((n >> 3) & 1)[1],
        nibble_pulses(n)[3] == bit_pair((n >> 2) & 1)[1],
        nibble_pulses(n)[5] == bit_pair((n >> 1) & 1)[1],
        nibble_pulses(n)[7] == bit_pair(n & 1)[1],
{
}

/// Where each part of a frame lands in the rendered sequence: the start
/// burst, the four nibbles at strides of eight pulses, the stop burst.
proof fn lemma_frame_index(n1: u8, n2: u8, n3: u8)
    ensures
        frame_pulses(n1, n2, n3).len() == 36,
        frame_pulses(n1, n2, n3)[0] == 157,
        frame_pulses(n1, n2, n3)[1] == 1026,
        frame_pulses(n1, n2, n3)[34] == 157,
        frame_pulses(n1, n2, n3)[35] == 1026,
        forall|k: int|
            2 <= k < 10 ==> frame_pulses(n1, n2, n3)[k] == nibble_pulses(n1)[k - 2],
        forall|k: int|
            10 <= k < 18 ==> frame_pulses(n1, n2, n3)[k] == nibble_pulses(n2)[k - 10],
        forall|k: int|
            18 <= k < 26 ==> frame_pulses(n1, n2, n3)[k] == nibble_pulses(n3)[k - 18],
        forall|k: int|
            26 <= k < 34 ==> frame_pulses(n1, n2, n3)[k] == nibble_pulses(lrc(n1, n2, n3))[k
                - 26],
{
    lemma_nibble_index(n1);
    lemma_nibble_index(n2);
    lemma_nibble_index(n3);
    lemma_nibble_index(lrc(n1, n2, n3));
}

/// Law: every rendered frame has even length -- 36 pulses exactly -- begins
/// and ends with the fixed mark-space burst of 157 us and 1026 us, and
/// carries a 157 us mark at every even index.
pub proof fn lemma_frame_shape(n1: u8, n2: u8, n3: u8)
    ensures
        frame_pulses(n1, n2, n3).len() == 36,
        frame_pulses(n1, n2, n3)[0] == 157,
        frame_pulses(n1, n2, n3)[1] == 1026,
        frame_pulses(n1, n2, n3)[34] == 157,
        frame_pulses(n1, n2, n3)[35] == 1026,
        forall|k: int| 0 <= k < 36 && k % 2 == 0 ==> frame_pulses(n1, n2, n3)[k] == 157,
{
    lemma_frame_index(n1, n2, n3);
    lemma_nibble_index(n1);
    lemma_nibble_index(n2);
    lemma_nibble_index(n3);
    lemma_nibble_index(lrc(n1, n2, n3));
    assert forall|k: int| 0 <= k < 36 && k % 2 == 0 implies frame_pulses(n1, n2, n3)[k]
        == 157 by {
        if 2 <= k < 10 {
            assert(frame_pulses(n1, n2, n3)[k] == nibble_pulses(n1)[k - 2]);
        } else if 10 <= k < 18 {
            assert(frame_pulses(n1, n2, n3)[k] == nibble_pulses(n2)[k - 10]);
        } else if 18 <= k < 26 {
            assert(frame_pulses(n1, n2, n3)[k] == nibble_pulses(n3)[k - 18]);
        } else if 26 <= k < 34 {
            assert(frame_pulses(n1, n2, n3)[k] == nibble_pulses(lrc(n1, n2, n3))[k - 26]);
        }
    }
}

/// The value of each bit position of a nibble, and that a nibble below 16
/// is rebuilt exactly from its four bits.
proof fn lemma_nibble_bits(n: u8)
    by (bit_vector)
    ensures
        ((n >> 3) & 1) <= 1,
        ((n >> 2) & 1) <= 1,
        ((n >> 1) & 1) <= 1,
        (n & 1) <= 1,
        n < 16 ==> 8 * ((n >> 3) & 1) + 4 * ((n >> 2) & 1) + 2 * ((n >> 1) & 1) + (n & 1) == n,
{
}

/// The bit at position `i` (0-based, most-significant first) read back out
/// of a rendered frame: 1 exactly when the space of that bit's pulse pair
/// is the long one.
pub open spec fn frame_bit(f: Seq<u32>, i: int) -> u8 {
    if f[2 + 2 * i + 1] == 552 {
        1
    } else {
        0
    }
}

/// The nibble at position `j` (0-based from the most-significant nibble)
/// read back out of a rendered frame.
pub open spec fn frame_nibble(f: Seq<u32>, j: int) -> u8 {
    (8 * frame_bit(f, 4 * j) + 4 * frame_bit(f, 4 * j + 1) + 2 * frame_bit(f, 4 * j + 2)
        + frame_bit(f, 4 * j + 3)) as u8
}

/// The sixteen bits of a frame read back equal the bits of its nibbles.
proof fn lemma_frame_bits(n1: u8, n2: u8, n3: u8)
    ensures
        frame_bit(frame_pulses(n1, n2, n3), 0) == (n1 >> 3) & 1,
        frame_bit(frame_pulses(n1, n2, n3), 1) == (n1 >> 2) & 1,
        frame_bit(frame_pulses(n1, n2, n3), 2) == (n1 >> 1) & 1,
        frame_bit(frame_pulses(n1, n2, n3), 3) == n1 & 1,
        frame_bit(frame_pulses(n1, n2, n3), 4) == (n2 >> 3) & 1,
        frame_bit(frame_pulses(n1, n2, n3), 5) == (n2 >> 2) & 1,
        frame_bit(frame_pulses(n1, n2, n3), 6) == (n2 >> 1) & 1,
        frame_bit(frame_pulses(n1, n2, n3), 7) == n2 & 1,
        frame_bit(frame_pulses(n1, n2, n3), 8) == (n3 >> 3) & 1,
        frame_bit(frame_pulses(n1, n2, n3), 9) == (n3 >> 2) & 1,
        frame_bit(frame_pulses(n1, n2, n3), 10) == (n3 >> 1) & 1,
        frame_bit(frame_pulses(n1, n2, n3), 11) == n3 & 1,
        frame_bit(frame_pulses(n1, n2, n3), 12) == (lrc(n1, n2, n3) >> 3) & 1,
        frame_bit(frame_pulses(n1, n2, n3), 13) == (lrc(n1, n2, n3) >> 2) & 1,
        frame_bit(frame_pulses(n1, n2, n3), 14) == (lrc(n1, n2, n3) >> 1) & 1,
        frame_bit(frame_pulses(n1, n2, n3), 15) == lrc(n1, n2, n3) & 1,
{
    lemma_frame_index(n1, n2, n3);
    lemma_nibble_index(n1);
    lemma_nibble_index(n2);
    lemma_nibble_index(n3);
    lemma_nibble_index(lrc(n1, n2, n3));
    lemma_nibble_bits(n1);
    lemma_nibble_bits(n2);
    lemma_nibble_bits(n3);
    lemma_nibble_bits(lrc(n1, n2, n3));
}

/// Law: decoding a rendered frame's bit pattern recovers the three payload
/// nibbles, and the checksum nibble actually emitted equals the checksum
/// recomputed over the decoded payload nibbles.
pub proof fn lemma_frame_checksum(n1: u8, n2: u8, n3: u8)
    requires
        n1 < 16,
        n2 < 16,
        n3 < 16,
    ensures
        frame_nibble(frame_pulses(n1, n2, n3), 0) == n1,
        frame_nibble(frame_pulses(n1, n2, n3), 1) == n2,
        frame_nibble(frame_pulses(n1, n2, n3), 2) == n3,
        frame_nibble(frame_pulses(n1, n2, n3), 3) == lrc(
            frame_nibble(frame_pulses(n1, n2, n3), 0),
            frame_nibble(frame_pulses(n1, n2, n3), 1),
            frame_nibble(frame_pulses(n1, n2, n3), 2),
        ),
{
    lemma_frame_bits(n1, n2, n3);
    lemma_nibble_bits(n1);
    lemma_nibble_bits(n2);
    lemma_nibble_bits(n3);
    lemma_nibble_bits(lrc(n1, n2, n3));
    assert(lrc(n1, n2, n3) < 16) by (bit_vector)
        requires
            n1 < 16,
            n2 < 16,
            n3 < 16,
    ;
}

/// Flipping the top bit of the first payload nibble -- the toggle bit of
/// the stateful protocols -- changes exactly two rendered pulses: the space
/// of the first payload bit and the space of the checksum's top bit.
pub proof fn lemma_toggle_bit_difference(n1: u8, n2: u8, n3: u8)
    requires
        n1 < 8,
    ensures
        forall|k: int|
            0 <= k < 36 && k != 3 && k != 27 ==> frame_pulses(n1, n2, n3)[k] == frame_pulses(
                (n1 + 8) as u8,
                n2,
                n3,
            )[k],
        frame_pulses(n1, n2, n3)[3] != frame_pulses((n1 + 8) as u8, n2, n3)[3],
        frame_pulses(n1, n2, n3)[27] != frame_pulses((n1 + 8) as u8, n2, n3)[27],
{
    let m1 = (n1 + 8) as u8;
    let l0 = lrc(n1, n2, n3);
    let l1 = lrc(m1, n2, n3);
    assert((m1 >> 3) & 1 == 1 && (n1 >> 3) & 1 == 0 && (m1 >> 2) & 1 == (n1 >> 2) & 1 && (m1 >> 1)
        & 1 == (n1 >> 1) & 1 && m1 & 1 == n1 & 1) by (bit_vector)
        requires
            n1 < 8,
            m1 == (n1 + 8) as u8,
    ;
    assert(((0xf ^ (m1 ^ n2 ^ n3)) >> 3) & 1 != ((0xf ^ (n1 ^ n2 ^ n3)) >> 3) & 1 && ((0xf ^ (m1
        ^ n2 ^ n3)) >> 2) & 1 == ((0xf ^ (n1 ^ n2 ^ n3)) >> 2) & 1 && ((0xf ^ (m1 ^ n2 ^ n3)) >> 1)
        & 1 == ((0xf ^ (n1 ^ n2 ^ n3)) >> 1) & 1 && (0xf ^ (m1 ^ n2 ^ n3)) & 1 == (0xf ^ (n1 ^ n2
        ^ n3)) & 1) by (bit_vector)
        requires
            n1 < 8,
            m1 == (n1 + 8) as u8,
    ;
    lemma_frame_index(n1, n2, n3);
    lemma_frame_index(m1, n2, n3);
    lemma_nibble_index(n1);
    lemma_nibble_index(m1);
    lemma_nibble_index(n2);
    lemma_nibble_index(n3);
    lemma_nibble_index(l0);
    lemma_nibble_index(l1);
    assert forall|k: int|
        0 <= k < 36 && k != 3 && k != 27 implies frame_pulses(n1, n2, n3)[k] == frame_pulses(
        m1,
        n2,
        n3,
    )[k] by {
        if 2 <= k < 10 {
            assert(frame_pulses(n1, n2, n3)[k] == nibble_pulses(n1)[k - 2]);
            assert(frame_pulses(m1, n2, n3)[k] == nibble_pulses(m1)[k - 2]);
        } else if 10 <= k < 18 {
            assert(frame_pulses(n1, n2, n3)[k] == nibble_pulses(n2)[k - 10]);
            assert(frame_pulses(m1, n2, n3)[k] == nibble_pulses(n2)[k - 10]);
        } else if 18 <= k < 26 {
            assert(frame_pulses(n1, n2, n3)[k] == nibble_pulses(n3)[k - 18]);
            assert(frame_pulses(m1, n2, n3)[k] == nibble_pulses(n3)[k - 18]);
        } else if 26 <= k < 34 {
            assert(frame_pulses(n1, n2, n3)[k] == nibble_pulses(l0)[k - 26]);
            assert(frame_pulses(m1, n2, n3)[k] == nibble_pulses(l1)[k - 26]);
        }
    }
    lemma_nibble_bits(l0);
    lemma_nibble_bits(l1);
    assert(frame_pulses(n1, n2, n3)[27] == bit_pair((l0 >> 3) & 1)[1]);
    assert(frame_pulses(m1, n2, n3)[27] == bit_pair((l1 >> 3) & 1)[1]);
}

/// Appends the four pulse pairs of one nibble, most-significant bit first.
fn push_nibble(pulses: &mut Vec<u32>, n: u8)
    ensures
        final(pulses)@ == old(pulses)@ + nibble_pulses(n),
{
    let b3: u8 = (n >> 3) & 1;
    let b2: u8 = (n >> 2) & 1;
    let b1: u8 = (n >> 1) & 1;
    let b0: u8 = n & 1;
    pulses.push(157);
    if b3 == 0 {
        pulses.push(263);
    } else {
        pulses.push(552);
    }
    pulses.push(157);
    if b2 == 0 {
        pulses.push(263);
    } else {
        pulses.push(552);
    }
    pulses.push(157);
    if b1 == 0 {
        pulses.push(263);
    } else {
        pulses.push(552);
    }
    pulses.push(157);
    if b0 == 0 {
        pulses.push(263);
    } else {
        pulses.push(552);
    }
    proof {
        assert(final(pulses)@ =~= old(pulses)@ + nibble_pulses(n));
    }
}

/// Renders the frame with payload nibbles `n1`, `n2`, `n3` into its pulse
/// sequence, computing the checksum nibble on the way.
pub fn encode_frame(n1: u8, n2: u8, n3: u8) -> (r: Vec<u32>)
    ensures
        r@ == frame_pulses(n1, n2, n3),
{
    let mut pulses: Vec<u32> = Vec::new();
    pulses.push(157);
    pulses.push(1026);
    push_nibble(&mut pulses, n1);
    push_nibble(&mut pulses, n2);
    push_nibble(&mut pulses, n3);
    let check: u8 = 0xf ^ (n1 ^ n2 ^ n3);
    push_nibble(&mut pulses, check);
    pulses.push(157);
    pulses.push(1026);
    proof {
        assert(pulses@ =~= frame_pulses(n1, n2, n3));
    }
    pulses
}

} // verus!
