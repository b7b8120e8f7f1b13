//! Numbers as a host hands them over: 256 bits wide.

use vstd::prelude::*;

verus! {

/// The value of a 256-bit word given as four limbs of 64 bits, the least
/// significant limb first.
pub open spec fn word_value(limbs: Seq<u64>) -> nat {
    (limbs[0] + limbs[1] * 0x1_0000_0000_0000_0000int + limbs[2]
        * 0x1_0000_0000_0000_0000_0000_0000_0000_0000int + limbs[3]
        * 0x1_0000_0000_0000_0000_0000_0000_0000_0000_0000_0000_0000_0000int) as nat
}

/// The value of a 256-bit word where it is at most `limit`, and `limit`
/// where it is more: a position beyond the board stays beyond the board, a
/// code that stands for nothing goes on standing for nothing.
pub fn clamp_word(limbs: [u64; 4], limit: u64) -> (clamped: u64)
    ensures
        clamped == if word_value(limbs@) <= limit {
            word_value(limbs@)
        } else {
            limit as nat
        },
{
    if limbs[1] == 0 && limbs[2] == 0 && limbs[3] == 0 && limbs[0] <= limit {
        limbs[0]
    } else {
        limit
    }
}

} // verus!
