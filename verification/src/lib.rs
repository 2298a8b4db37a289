//! Hangul syllables and the three sounds they are made of.

use vstd::prelude::*;

pub mod compose;
pub mod constants;
pub mod digits;
pub mod models;

verus! {

/// Whether `code` lies in the block of precomposed syllables.
pub open spec fn syllable_code(code: int) -> bool {
    constants::HANGEUL_OFFSET <= code <= constants::HANGEUL_END
}

/// Tells whether `code` is a precomposed Hangul syllable.
pub fn is_syllable(code: u32) -> (r: bool)
    ensures
        r == syllable_code(code as int),
{
    constants::HANGEUL_OFFSET <= code && code <= constants::HANGEUL_END
}

} // verus!
