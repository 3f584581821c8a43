//! The valve position word: the 16-bit value that all three valve state layers carry.
//!
//! ```text
//!     bit 15    bits 14..0
//!     +------+--------------+
//!     | !pwr | promille     |   0..=1000
//!     +------+--------------+
//! ```
//!
//! Bit 15 set means that the drive is released. The flag and the position are independent, so a
//! released valve still reports where it was last estimated to be.
use vstd::prelude::*;

verus! {

/// Fully open. Positions on this bus are promille, so the range is 0..=1000.
pub const PROMILLE_MAX: u16 = 1000;

/// Bit 15 of a position word: this valve is not being driven.
pub const UNPOWERED_FLAG: u16 = 0x8000;

/// The promille field of a position word.
pub const POSITION_MASK: u16 = 0x7FFF;

/// Whether the top bit of a position word is set.
pub open spec fn released(word: u16) -> bool {
    word >= 32768
}

/// The low fifteen bits of a position word.
pub open spec fn position(word: u16) -> u16 {
    (word % 32768) as u16
}

/// A position word with the top bit set.
pub open spec fn released_at(at: u16) -> u16 {
    (at % 32768 + 32768) as u16
}

/// Is this position word asking for (or reporting) a released drive?
pub fn is_unpowered(word: u16) -> (r: bool)
    ensures
        r == released(word),
{
    assert(word & 0x8000 != 0 <==> word >= 32768) by (bit_vector);
    word & UNPOWERED_FLAG != 0
}

/// The promille part of a position word, with the flag stripped.
pub fn position_of(word: u16) -> (r: u16)
    ensures
        r == position(word),
{
    assert(word & 0x7FFF == word % 32768) by (bit_vector);
    word & POSITION_MASK
}

/// Builds a position word that reports `position` but says the drive is released.
pub fn unpowered_at(position: u16) -> (r: u16)
    ensures
        r == released_at(position),
{
    assert((position & 0x7FFF) | 0x8000 == position % 32768 + 32768) by (bit_vector);
    (position & POSITION_MASK) | UNPOWERED_FLAG
}

/// The flag and the position do not interfere: releasing keeps the reading, and a position below
/// the flag bit is its own driven word.
pub proof fn flag_and_position_are_independent(at: u16)
    requires
        at <= POSITION_MASK,
    ensures
        released(released_at(at)),
        position(released_at(at)) == at,
        !released(at),
        position(at) == at,
{
}

/// A word is what its flag and its position say.
pub proof fn a_word_is_its_flag_and_position(word: u16)
    ensures
        word == if released(word) {
            released_at(position(word))
        } else {
            position(word)
        },
{
}

/// No legal position gives the word that means "not connected".
pub proof fn not_connected_is_no_position(at: u16)
    requires
        at <= PROMILLE_MAX,
    ensures
        released_at(at) != u16::MAX,
        at != u16::MAX,
{
}

} // verus!
