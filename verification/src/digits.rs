//! The offset of a syllable in its block, read as a number of three digits:
//! the place of the initial consonant, the place of the vowel, and the final
//! slot. A step of the first digit is worth 588, a step of the second 28.

use vstd::prelude::*;
use vstd::arithmetic::div_mod::{lemma_fundamental_div_mod, lemma_fundamental_div_mod_converse};

verus! {

/// Any offset from 0 splits into its three digits by division and remainder,
/// the two lower digits staying below 21 and 28. Taking the last digit off
/// before the second division changes nothing.
pub proof fn lemma_offset_splits(offset: int)
    requires
        0 <= offset,
    ensures
        0 <= offset / 588,
        0 <= (offset % 588) / 28 <= 20,
        0 <= offset % 28 <= 27,
        offset == (offset / 588) * 588 + ((offset % 588) / 28) * 28 + offset % 28,
        ((offset - offset % 28) % 588) / 28 == (offset % 588) / 28,
{
    let high = offset / 588;
    let rest = offset % 588;
    let middle = rest / 28;
    let low = rest % 28;
    lemma_fundamental_div_mod(offset, 588);
    lemma_fundamental_div_mod(rest, 28);
    assert(offset == high * 588 + middle * 28 + low);
    assert(0 <= middle <= 20);
    assert(0 <= high);
    lemma_fundamental_div_mod_converse(offset, 28, high * 21 + middle, low);
    lemma_fundamental_div_mod_converse(offset - low, 588, high, middle * 28);
    lemma_fundamental_div_mod_converse(middle * 28, 28, middle, 0);
}

/// Three digits in their ranges make an offset inside the block, and that
/// offset splits into the same three digits.
pub proof fn lemma_digits_join(high: int, middle: int, low: int)
    requires
        0 <= high <= 18,
        0 <= middle <= 20,
        0 <= low <= 27,
    ensures
        0 <= high * 588 + middle * 28 + low <= 11171,
        (high * 588 + middle * 28 + low) / 588 == high,
        ((high * 588 + middle * 28 + low) % 588) / 28 == middle,
        (high * 588 + middle * 28 + low) % 28 == low,
{
    let offset = high * 588 + middle * 28 + low;
    lemma_fundamental_div_mod_converse(offset, 588, high, middle * 28 + low);
    lemma_fundamental_div_mod_converse(middle * 28 + low, 28, middle, low);
    lemma_fundamental_div_mod_converse(offset, 28, high * 21 + middle, low);
}

} // verus!
