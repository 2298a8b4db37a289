//! Putting three sounds together into a syllable, and taking a syllable apart.

use vstd::prelude::*;
use crate::constants::{CHOSEONG_COUNT, HANGEUL_OFFSET, JUNGSEONG_COUNT};
use crate::digits::{lemma_digits_join, lemma_offset_splits};
use crate::models::{Choseong, Jongseong, Jungseong, Syllable};
use crate::{is_syllable, syllable_code};

verus! {

/// What a final slot adds to the codepoint of a syllable: the place of the
/// consonant, or 0 for a slot left empty.
pub open spec fn final_slot(last: Option<Jongseong>) -> nat {
    match last {
        Some(s) => s.composable(),
        None => 0,
    }
}

/// Codepoint of the syllable made of an initial consonant, a vowel and, where
/// there is one, a final consonant.
pub open spec fn composed(initial: Choseong, medial: Jungseong, last: Option<Jongseong>) -> nat {
    HANGEUL_OFFSET as nat + initial.composable() + medial.composable() + final_slot(last)
}

/// The three sounds of the syllable `code`; `None` if `code` is no syllable.
pub open spec fn decomposed(code: int) -> Option<(Choseong, Jungseong, Option<Jongseong>)> {
    if syllable_code(code) {
        match (Choseong::of_syllable(code), Jungseong::of_syllable(code)) {
            (Some(initial), Some(medial)) => Some((initial, medial, Jongseong::of_syllable(code))),
            _ => None,
        }
    } else {
        None
    }
}

/// Puts a syllable together: the first syllable of the block plus what each
/// sound adds. The result is always a syllable, and it falls apart into the
/// sounds it was made of.
pub fn compose(initial: Choseong, medial: Jungseong, last: Option<Jongseong>) -> (code: u32)
    ensures
        code == composed(initial, medial, last),
        syllable_code(code as int),
        decomposed(code as int) == Some((initial, medial, last)),
{
    proof {
        lemma_compose_then_decompose(initial, medial, last);
    }
    let tail: u32 = match last {
        Some(s) => s.composable_u32(),
        None => 0,
    };
    HANGEUL_OFFSET + initial.composable_u32() + medial.composable_u32() + tail
}

/// Takes a syllable apart into its initial consonant, its vowel and its final
/// consonant, if it has one. Every syllable has the first two, and is what
/// its sounds compose to; a codepoint that is no syllable gives `None`.
pub fn decompose(code: u32) -> (r: Option<(Choseong, Jungseong, Option<Jongseong>)>)
    ensures
        r == decomposed(code as int),
        r is Some <==> syllable_code(code as int),
        r matches Some((initial, medial, last)) ==> composed(initial, medial, last) == code,
{
    if !is_syllable(code) {
        return None;
    }
    proof {
        lemma_decompose_then_compose(code as int);
    }
    match (Choseong::from_syllable(code), Jungseong::from_syllable(code)) {
        (Some(initial), Some(medial)) => Some((initial, medial, Jongseong::from_syllable(code))),
        _ => None,
    }
}

/// A syllable is the sum of its parts: taking it apart and putting the parts
/// together gives the same codepoint.
pub proof fn lemma_decompose_then_compose(code: int)
    requires
        syllable_code(code),
    ensures
        decomposed(code) matches Some((initial, medial, last)) && composed(initial, medial, last)
            == code,
{
    let offset = code - HANGEUL_OFFSET;
    lemma_offset_splits(offset);
    Choseong::lemma_of_index(offset / 588);
    Jungseong::lemma_of_index((offset % 588) / 28);
    Jongseong::lemma_of_index(offset % 28);
}

/// Three sounds put together make a syllable that falls apart into the same
/// three sounds, an empty final slot staying empty.
pub proof fn lemma_compose_then_decompose(
    initial: Choseong,
    medial: Jungseong,
    last: Option<Jongseong>,
)
    ensures
        syllable_code(composed(initial, medial, last) as int),
        decomposed(composed(initial, medial, last) as int) == Some((initial, medial, last)),
{
    Choseong::lemma_of_index(initial.index() as int);
    Jungseong::lemma_of_index(medial.index() as int);
    Jongseong::lemma_of_index(final_slot(last) as int);
    lemma_places_round_trip(initial.index() as int, medial.index() as int, final_slot(last) as int);
}

/// The same by places: every choice of an initial place from 0 to 18, a vowel
/// place from 0 to 20 and a final slot from 0 to 27 is the codepoint of a
/// syllable whose sounds stand at those places, slot 0 being a syllable
/// without final consonant.
pub proof fn lemma_places_round_trip(initial: int, medial: int, last: int)
    requires
        0 <= initial <= 18,
        0 <= medial <= 20,
        0 <= last <= 27,
    ensures
        ({
            let code = HANGEUL_OFFSET + initial * CHOSEONG_COUNT + medial * JUNGSEONG_COUNT + last;
            &&& syllable_code(code)
            &&& Choseong::of_syllable(code) matches Some(s) && s.index() == initial
            &&& Jungseong::of_syllable(code) matches Some(s) && s.index() == medial
            &&& match Jongseong::of_syllable(code) {
                Some(s) => s.index() == last,
                None => last == 0,
            }
        }),
{
    lemma_digits_join(initial, medial, last);
    Choseong::lemma_of_index(initial);
    Jungseong::lemma_of_index(medial);
    Jongseong::lemma_of_index(last);
}

} // verus!
