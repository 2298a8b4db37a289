//! Fixed codepoints and counts of the Unicode Hangul layout.

use vstd::prelude::*;

verus! {

/// First precomposed syllable, U+AC00.
pub const HANGEUL_OFFSET: u32 = 0xAC00;

/// Last precomposed syllable, U+D7A3.
pub const HANGEUL_END: u32 = 0xD7A3;

/// Number of syllables that share one initial consonant: 21 vowels times 28
/// final slots.
pub const CHOSEONG_COUNT: u32 = 588;

/// Number of syllables that share one initial consonant and one vowel: the
/// empty final slot and the 27 final consonants.
pub const JUNGSEONG_COUNT: u32 = 28;

/// First conjoining initial consonant, U+1100.
pub const CHOSEONG_START: u32 = 0x1100;

/// First conjoining vowel, U+1161.
pub const JUNGSEONG_START: u32 = 0x1161;

/// First compatibility vowel, U+314F.
pub const JUNGSEONG_COMPAT_START: u32 = 0x314F;

/// First conjoining final consonant, U+11A8.
pub const JONGSEONG_START: u32 = 0x11A8;

} // verus!
