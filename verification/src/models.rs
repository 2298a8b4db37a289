//! The three sounds of a syllable: initial consonant, vowel and final
//! consonant.

use vstd::prelude::*;
use crate::constants::{
    CHOSEONG_COUNT, CHOSEONG_START, HANGEUL_OFFSET, JONGSEONG_START, JUNGSEONG_COMPAT_START,
    JUNGSEONG_COUNT, JUNGSEONG_START,
};
use crate::digits::lemma_offset_splits;
use crate::{is_syllable, syllable_code};

verus! {

/// What the three kinds of sound have in common: a place in their own
/// alphabet, a conjoining jamo, and a share in the codepoint of a syllable.
pub trait Syllable {
    /// Place of the sound in its alphabet. Initial consonants and vowels count
    /// from 0, final consonants from 1: a syllable without final consonant has
    /// 0 in that slot.
    spec fn index(&self) -> nat;

    /// Codepoint of the sound as a conjoining jamo.
    spec fn positional(&self) -> nat;

    /// What the sound adds to `HANGEUL_OFFSET` in the codepoint of a syllable
    /// that holds it.
    spec fn composable(&self) -> nat;

    /// The share of the sound in a syllable's codepoint.
    fn composable_u32(&self) -> (r: u32)
        ensures
            r == self.composable(),
    ;

    /// The sound as a conjoining jamo.
    fn to_u32(&self) -> (r: u32)
        ensures
            r == self.positional(),
    ;

    /// The place of the sound in its alphabet.
    fn to_index(&self) -> (r: u32)
        ensures
            r == self.index(),
    ;
}

/// Initial consonant of a syllable.
#[derive(Clone, Copy, Debug, PartialEq, Eq, Structural)]
pub enum Choseong {
    /// ㄱ
    Giyeok,
    /// ㄲ
    SsangGiyeok,
    /// ㄴ
    Nieun,
    /// ㄷ
    Digeut,
    /// ㄸ
    SsangDigeut,
    /// ㄹ
    Rieul,
    /// ㅁ
    Mieum,
    /// ㅂ
    Bieup,
    /// ㅃ
    SsangBieup,
    /// ㅅ
    Siot,
    /// ㅆ
    SsangSiot,
    /// ㅇ
    Ieung,
    /// ㅈ
    Jieut,
    /// ㅉ
    SsangJieut,
    /// ㅊ
    Chieut,
    /// ㅋ
    Kiyeok,
    /// ㅌ
    Tieut,
    /// ㅍ
    Pieup,
    /// ㅎ
    Hieuh,
}

impl Choseong {
    /// Codepoint of the consonant as a compatibility jamo, the form in which
    /// it stands alone.
    pub open spec fn compatibility(self) -> nat {
        match self {
            Choseong::Giyeok => 0x3131,
            Choseong::SsangGiyeok => 0x3132,
            Choseong::Nieun => 0x3134,
            Choseong::Digeut => 0x3137,
            Choseong::SsangDigeut => 0x3138,
            Choseong::Rieul => 0x3139,
            Choseong::Mieum => 0x3141,
            Choseong::Bieup => 0x3142,
            Choseong::SsangBieup => 0x3143,
            Choseong::Siot => 0x3145,
            Choseong::SsangSiot => 0x3146,
            Choseong::Ieung => 0x3147,
            Choseong::Jieut => 0x3148,
            Choseong::SsangJieut => 0x3149,
            Choseong::Chieut => 0x314A,
            Choseong::Kiyeok => 0x314B,
            Choseong::Tieut => 0x314C,
            Choseong::Pieup => 0x314D,
            Choseong::Hieuh => 0x314E,
        }
    }

    /// The consonant at place `i` of the alphabet, if there is one.
    pub open spec fn of_index(i: int) -> Option<Choseong> {
        if i == Choseong::Giyeok.index() {
            Some(Choseong::Giyeok)
        } else if i == Choseong::SsangGiyeok.index() {
            Some(Choseong::SsangGiyeok)
        } else if i == Choseong::Nieun.index() {
            Some(Choseong::Nieun)
        } else if i == Choseong::Digeut.index() {
            Some(Choseong::Digeut)
        } else if i == Choseong::SsangDigeut.index() {
            Some(Choseong::SsangDigeut)
        } else if i == Choseong::Rieul.index() {
            Some(Choseong::Rieul)
        } else if i == Choseong::Mieum.index() {
            Some(Choseong::Mieum)
        } else if i == Choseong::Bieup.index() {
            Some(Choseong::Bieup)
        } else if i == Choseong::SsangBieup.index() {
            Some(Choseong::SsangBieup)
        } else if i == Choseong::Siot.index() {
            Some(Choseong::Siot)
        } else if i == Choseong::SsangSiot.index() {
            Some(Choseong::SsangSiot)
        } else if i == Choseong::Ieung.index() {
            Some(Choseong::Ieung)
        } else if i == Choseong::Jieut.index() {
            Some(Choseong::Jieut)
        } else if i == Choseong::SsangJieut.index() {
            Some(Choseong::SsangJieut)
        } else if i == Choseong::Chieut.index() {
            Some(Choseong::Chieut)
        } else if i == Choseong::Kiyeok.index() {
            Some(Choseong::Kiyeok)
        } else if i == Choseong::Tieut.index() {
            Some(Choseong::Tieut)
        } else if i == Choseong::Pieup.index() {
            Some(Choseong::Pieup)
        } else if i == Choseong::Hieuh.index() {
            Some(Choseong::Hieuh)
        } else {
            None
        }
    }

    /// The consonant that `code` stands for as a compatibility jamo, if it
    /// stands for one.
    pub open spec fn of_compatibility(code: int) -> Option<Choseong> {
        if code == Choseong::Giyeok.compatibility() {
            Some(Choseong::Giyeok)
        } else if code == Choseong::SsangGiyeok.compatibility() {
            Some(Choseong::SsangGiyeok)
        } else if code == Choseong::Nieun.compatibility() {
            Some(Choseong::Nieun)
        } else if code == Choseong::Digeut.compatibility() {
            Some(Choseong::Digeut)
        } else if code == Choseong::SsangDigeut.compatibility() {
            Some(Choseong::SsangDigeut)
        } else if code == Choseong::Rieul.compatibility() {
            Some(Choseong::Rieul)
        } else if code == Choseong::Mieum.compatibility() {
            Some(Choseong::Mieum)
        } else if code == Choseong::Bieup.compatibility() {
            Some(Choseong::Bieup)
        } else if code == Choseong::SsangBieup.compatibility() {
            Some(Choseong::SsangBieup)
        } else if code == Choseong::Siot.compatibility() {
            Some(Choseong::Siot)
        } else if code == Choseong::SsangSiot.compatibility() {
            Some(Choseong::SsangSiot)
        } else if code == Choseong::Ieung.compatibility() {
            Some(Choseong::Ieung)
        } else if code == Choseong::Jieut.compatibility() {
            Some(Choseong::Jieut)
        } else if code == Choseong::SsangJieut.compatibility() {
            Some(Choseong::SsangJieut)
        } else if code == Choseong::Chieut.compatibility() {
            Some(Choseong::Chieut)
        } else if code == Choseong::Kiyeok.compatibility() {
            Some(Choseong::Kiyeok)
        } else if code == Choseong::Tieut.compatibility() {
            Some(Choseong::Tieut)
        } else if code == Choseong::Pieup.compatibility() {
            Some(Choseong::Pieup)
        } else if code == Choseong::Hieuh.compatibility() {
            Some(Choseong::Hieuh)
        } else {
            None
        }
    }

    /// Whether `code` is one of the two jamo of this consonant.
    pub open spec fn has_codepoint(self, code: int) -> bool {
        code == self.positional() || code == self.compatibility()
    }

    /// The consonant that `code` stands for as a jamo of either block.
    pub open spec fn of_jamo(code: int) -> Option<Choseong> {
        match Choseong::of_index(code - CHOSEONG_START) {
            Some(s) => Some(s),
            None => Choseong::of_compatibility(code),
        }
    }

    /// The initial consonant of the syllable `code`.
    pub open spec fn of_syllable(code: int) -> Option<Choseong> {
        Choseong::of_index((code - HANGEUL_OFFSET) / (CHOSEONG_COUNT as int))
    }

    /// The consonant that `code` holds: the initial of a syllable, or the
    /// consonant that a jamo stands for.
    pub open spec fn of_codepoint(code: int) -> Option<Choseong> {
        if syllable_code(code) {
            Choseong::of_syllable(code)
        } else {
            Choseong::of_jamo(code)
        }
    }

    /// Reads the initial consonant out of a character: a syllable or a jamo.
    pub fn from_char(c: &char) -> (r: Option<Choseong>)
        ensures
            r == Choseong::of_codepoint(*c as int),
    {
        Choseong::from_u32(*c as u32)
    }

    /// Reads the initial consonant out of a codepoint. A syllable gives its
    /// initial consonant; any other codepoint is read as a jamo.
    pub fn from_u32(code: u32) -> (r: Option<Choseong>)
        ensures
            r == Choseong::of_codepoint(code as int),
            syllable_code(code as int) ==> r is Some,
    {
        match is_syllable(code) {
            true => Choseong::from_syllable(code),
            false => Choseong::from_jamo(code),
        }
    }

    /// The initial consonant of a syllable: the one whose place in the
    /// alphabet is the syllable's offset in the block divided by 588.
    pub fn from_syllable(code: u32) -> (r: Option<Choseong>)
        requires
            syllable_code(code as int),
        ensures
            r == Choseong::of_syllable(code as int),
            ({
                let offset = code - HANGEUL_OFFSET;
                r matches Some(s) && s.index() == offset / (CHOSEONG_COUNT as int)
            }),
    {
        let value: u32 = (code - HANGEUL_OFFSET) / CHOSEONG_COUNT;

        proof {
            lemma_offset_splits(code - HANGEUL_OFFSET);
        }
        Self::from_jamo(value + CHOSEONG_START)
    }

    /// The consonant that a jamo stands for, whether `code` is the conjoining
    /// or the compatibility jamo; `None` for every other codepoint.
    pub fn from_jamo(code: u32) -> (r: Option<Choseong>)
        ensures
            r == Choseong::of_jamo(code as int),
            forall|s: Choseong| #[trigger] s.has_codepoint(code as int) <==> r == Some(s),
    {
        match code {
            0x1100 | 0x3131 => Some(Choseong::Giyeok),
            0x1101 | 0x3132 => Some(Choseong::SsangGiyeok),
            0x1102 | 0x3134 => Some(Choseong::Nieun),
            0x1103 | 0x3137 => Some(Choseong::Digeut),
            0x1104 | 0x3138 => Some(Choseong::SsangDigeut),
            0x1105 | 0x3139 => Some(Choseong::Rieul),
            0x1106 | 0x3141 => Some(Choseong::Mieum),
            0x1107 | 0x3142 => Some(Choseong::Bieup),
            0x1108 | 0x3143 => Some(Choseong::SsangBieup),
            0x1109 | 0x3145 => Some(Choseong::Siot),
            0x110A | 0x3146 => Some(Choseong::SsangSiot),
            0x110B | 0x3147 => Some(Choseong::Ieung),
            0x110C | 0x3148 => Some(Choseong::Jieut),
            0x110D | 0x3149 => Some(Choseong::SsangJieut),
            0x110E | 0x314A => Some(Choseong::Chieut),
            0x110F | 0x314B => Some(Choseong::Kiyeok),
            0x1110 | 0x314C => Some(Choseong::Tieut),
            0x1111 | 0x314D => Some(Choseong::Pieup),
            0x1112 | 0x314E => Some(Choseong::Hieuh),
            _ => None,
        }
    }

    /// The consonant as a character that stands alone: its compatibility
    /// jamo.
    pub fn to_char(&self) -> (r: char)
        ensures
            r as nat == self.compatibility(),
    {
        match self {
            Choseong::Giyeok => 'ㄱ',
            Choseong::SsangGiyeok => 'ㄲ',
            Choseong::Nieun => 'ㄴ',
            Choseong::Digeut => 'ㄷ',
            Choseong::SsangDigeut => 'ㄸ',
            Choseong::Rieul => 'ㄹ',
            Choseong::Mieum => 'ㅁ',
            Choseong::Bieup => 'ㅂ',
            Choseong::SsangBieup => 'ㅃ',
            Choseong::Siot => 'ㅅ',
            Choseong::SsangSiot => 'ㅆ',
            Choseong::Ieung => 'ㅇ',
            Choseong::Jieut => 'ㅈ',
            Choseong::SsangJieut => 'ㅉ',
            Choseong::Chieut => 'ㅊ',
            Choseong::Kiyeok => 'ㅋ',
            Choseong::Tieut => 'ㅌ',
            Choseong::Pieup => 'ㅍ',
            Choseong::Hieuh => 'ㅎ',
        }
    }

    /// Place and consonant determine each other: the places are those from 0
    /// to 18, and `of_index` gives a consonant exactly at its own place.
    pub proof fn lemma_of_index(i: int)
        ensures
            0 <= i <= 18 <==> Choseong::of_index(i) is Some,
            forall|s: Choseong| #[trigger] s.index() == i <==> Choseong::of_index(i) == Some(s),
    {
    }

    /// A jamo stands for the consonant `s` exactly if it is one of the two
    /// jamo of `s`.
    pub proof fn lemma_of_jamo(s: Choseong, code: int)
        ensures
            s.has_codepoint(code) <==> Choseong::of_jamo(code) == Some(s),
    {
    }

    /// Reading either jamo of a consonant gives the consonant back, and both
    /// jamo lie in their blocks: the conjoining one among the 19 initial
    /// consonants from U+1100, the other among the compatibility consonants.
    pub proof fn lemma_jamo_round_trip(s: Choseong)
        ensures
            Choseong::of_jamo(s.positional() as int) == Some(s),
            Choseong::of_jamo(s.compatibility() as int) == Some(s),
            CHOSEONG_START <= s.positional() <= CHOSEONG_START + 18,
            0x3131 <= s.compatibility() <= 0x314E,
    {
    }

    /// Every codepoint of the block of conjoining initial consonants stands
    /// for a consonant, and that consonant's conjoining jamo is the codepoint
    /// again.
    pub proof fn lemma_positional_round_trip(code: int)
        requires
            CHOSEONG_START <= code <= CHOSEONG_START + 18,
        ensures
            Choseong::of_jamo(code) matches Some(s) && s.positional() == code,
    {
    }

    /// Every compatibility jamo of an initial consonant stands for a
    /// consonant, whose compatibility jamo is the codepoint again and whose
    /// conjoining jamo lies in the block of initial consonants.
    pub proof fn lemma_compatibility_round_trip(code: int)
        requires
            Choseong::of_compatibility(code) is Some,
        ensures
            ({
                &&& Choseong::of_jamo(code) matches Some(s)
                &&& s.compatibility() == code
                &&& CHOSEONG_START <= s.positional() <= CHOSEONG_START + 18
            }),
    {
    }

    /// No two consonants share a place, a conjoining jamo or a compatibility
    /// jamo.
    pub proof fn lemma_distinct(a: Choseong, b: Choseong)
        requires
            a != b,
        ensures
            a.index() != b.index(),
            a.positional() != b.positional(),
            a.compatibility() != b.compatibility(),
    {
    }
}

impl Syllable for Choseong {
    open spec fn index(&self) -> nat {
        match self {
            Choseong::Giyeok => 0,
            Choseong::SsangGiyeok => 1,
            Choseong::Nieun => 2,
            Choseong::Digeut => 3,
            Choseong::SsangDigeut => 4,
            Choseong::Rieul => 5,
            Choseong::Mieum => 6,
            Choseong::Bieup => 7,
            Choseong::SsangBieup => 8,
            Choseong::Siot => 9,
            Choseong::SsangSiot => 10,
            Choseong::Ieung => 11,
            Choseong::Jieut => 12,
            Choseong::SsangJieut => 13,
            Choseong::Chieut => 14,
            Choseong::Kiyeok => 15,
            Choseong::Tieut => 16,
            Choseong::Pieup => 17,
            Choseong::Hieuh => 18,
        }
    }

    open spec fn positional(&self) -> nat {
        CHOSEONG_START as nat + self.index()
    }

    open spec fn composable(&self) -> nat {
        self.index() * CHOSEONG_COUNT as nat
    }

    /// The conjoining jamo of the consonant, from U+1100 to U+1112.
    fn to_u32(&self) -> (r: u32)
        ensures
            CHOSEONG_START <= r <= CHOSEONG_START + 18,
    {
        Self::to_index(self) + CHOSEONG_START
    }

    /// 588 for each place: the syllables of one initial consonant stand
    /// together.
    fn composable_u32(&self) -> (r: u32)
        ensures
            r <= 18 * CHOSEONG_COUNT,
    {
        Self::to_index(self) * CHOSEONG_COUNT
    }

    /// Place of the consonant among the 19 initial consonants, from 0.
    fn to_index(&self) -> (r: u32)
        ensures
            r <= 18,
    {
        match self {
            Choseong::Giyeok => 0,
            Choseong::SsangGiyeok => 1,
            Choseong::Nieun => 2,
            Choseong::Digeut => 3,
            Choseong::SsangDigeut => 4,
            Choseong::Rieul => 5,
            Choseong::Mieum => 6,
            Choseong::Bieup => 7,
            Choseong::SsangBieup => 8,
            Choseong::Siot => 9,
            Choseong::SsangSiot => 10,
            Choseong::Ieung => 11,
            Choseong::Jieut => 12,
            Choseong::SsangJieut => 13,
            Choseong::Chieut => 14,
            Choseong::Kiyeok => 15,
            Choseong::Tieut => 16,
            Choseong::Pieup => 17,
            Choseong::Hieuh => 18,
        }
    }
}

/// Vowel of a syllable.
#[derive(Clone, Copy, Debug, PartialEq, Eq, Structural)]
pub enum Jungseong {
    /// ㅏ
    A,
    /// ㅐ
    AE,
    /// ㅑ
    YA,
    /// ㅒ
    YAE,
    /// ㅓ
    EO,
    /// ㅔ
    E,
    /// ㅕ
    YEO,
    /// ㅖ
    YE,
    /// ㅗ
    O,
    /// ㅘ
    WA,
    /// ㅙ
    WAE,
    /// ㅚ
    OE,
    /// ㅛ
    YO,
    /// ㅜ
    U,
    /// ㅝ
    WEO,
    /// ㅞ
    WE,
    /// ㅟ
    WI,
    /// ㅠ
    YU,
    /// ㅡ
    EU,
    /// ㅢ
    YI,
    /// ㅣ
    I,
}

impl Jungseong {
    /// Codepoint of the vowel as a compatibility jamo, the form in which it
    /// stands alone. The compatibility vowels lie in the order of the
    /// alphabet.
    pub open spec fn compatibility(self) -> nat {
        JUNGSEONG_COMPAT_START as nat + self.index()
    }

    /// The vowel at place `i` of the alphabet, if there is one.
    pub open spec fn of_index(i: int) -> Option<Jungseong> {
        if i == Jungseong::A.index() {
            Some(Jungseong::A)
        } else if i == Jungseong::AE.index() {
            Some(Jungseong::AE)
        } else if i == Jungseong::YA.index() {
            Some(Jungseong::YA)
        } else if i == Jungseong::YAE.index() {
            Some(Jungseong::YAE)
        } else if i == Jungseong::EO.index() {
            Some(Jungseong::EO)
        } else if i == Jungseong::E.index() {
            Some(Jungseong::E)
        } else if i == Jungseong::YEO.index() {
            Some(Jungseong::YEO)
        } else if i == Jungseong::YE.index() {
            Some(Jungseong::YE)
        } else if i == Jungseong::O.index() {
            Some(Jungseong::O)
        } else if i == Jungseong::WA.index() {
            Some(Jungseong::WA)
        } else if i == Jungseong::WAE.index() {
            Some(Jungseong::WAE)
        } else if i == Jungseong::OE.index() {
            Some(Jungseong::OE)
        } else if i == Jungseong::YO.index() {
            Some(Jungseong::YO)
        } else if i == Jungseong::U.index() {
            Some(Jungseong::U)
        } else if i == Jungseong::WEO.index() {
            Some(Jungseong::WEO)
        } else if i == Jungseong::WE.index() {
            Some(Jungseong::WE)
        } else if i == Jungseong::WI.index() {
            Some(Jungseong::WI)
        } else if i == Jungseong::YU.index() {
            Some(Jungseong::YU)
        } else if i == Jungseong::EU.index() {
            Some(Jungseong::EU)
        } else if i == Jungseong::YI.index() {
            Some(Jungseong::YI)
        } else if i == Jungseong::I.index() {
            Some(Jungseong::I)
        } else {
            None
        }
    }

    /// The vowel that `code` stands for as a compatibility jamo, if it stands
    /// for one.
    pub open spec fn of_compatibility(code: int) -> Option<Jungseong> {
        Jungseong::of_index(code - JUNGSEONG_COMPAT_START)
    }

    /// Whether `code` is one of the two jamo of this vowel.
    pub open spec fn has_codepoint(self, code: int) -> bool {
        code == self.positional() || code == self.compatibility()
    }

    /// The vowel that `code` stands for as a jamo of either block.
    pub open spec fn of_jamo(code: int) -> Option<Jungseong> {
        match Jungseong::of_index(code - JUNGSEONG_START) {
            Some(s) => Some(s),
            None => Jungseong::of_compatibility(code),
        }
    }

    /// The vowel of the syllable `code`.
    pub open spec fn of_syllable(code: int) -> Option<Jungseong> {
        Jungseong::of_index(
            ((code - HANGEUL_OFFSET) % (CHOSEONG_COUNT as int)) / (JUNGSEONG_COUNT as int),
        )
    }

    /// The vowel that `code` holds: the vowel of a syllable, or the vowel that
    /// a jamo stands for.
    pub open spec fn of_codepoint(code: int) -> Option<Jungseong> {
        if syllable_code(code) {
            Jungseong::of_syllable(code)
        } else {
            Jungseong::of_jamo(code)
        }
    }

    /// Reads the vowel out of a character: a syllable or a jamo.
    pub fn from_char(c: &char) -> (r: Option<Jungseong>)
        ensures
            r == Jungseong::of_codepoint(*c as int),
    {
        Jungseong::from_u32(*c as u32)
    }

    /// Reads the vowel out of a codepoint. A syllable gives its vowel; any
    /// other codepoint is read as a jamo.
    pub fn from_u32(code: u32) -> (r: Option<Jungseong>)
        ensures
            r == Jungseong::of_codepoint(code as int),
            syllable_code(code as int) ==> r is Some,
    {
        match is_syllable(code) {
            true => Jungseong::from_syllable(code),
            false => Jungseong::from_jamo(code),
        }
    }

    /// The vowel of a syllable: the one whose place in the alphabet is the
    /// syllable's offset among the 588 of its initial consonant, divided by
    /// 28.
    pub fn from_syllable(code: u32) -> (r: Option<Jungseong>)
        requires
            syllable_code(code as int),
        ensures
            r == Jungseong::of_syllable(code as int),
            ({
                let rest = (code - HANGEUL_OFFSET) % (CHOSEONG_COUNT as int);
                r matches Some(s) && s.index() == rest / (JUNGSEONG_COUNT as int)
            }),
    {
        let jongseong_code: u32 = (code - HANGEUL_OFFSET) % JUNGSEONG_COUNT;
        let value: u32 = ((code - HANGEUL_OFFSET - jongseong_code) % CHOSEONG_COUNT)
            / JUNGSEONG_COUNT;

        proof {
            lemma_offset_splits(code - HANGEUL_OFFSET);
        }
        Self::from_jamo(value + JUNGSEONG_START)
    }

    /// The vowel that a jamo stands for, whether `code` is the conjoining or
    /// the compatibility jamo; `None` for every other codepoint.
    pub fn from_jamo(code: u32) -> (r: Option<Jungseong>)
        ensures
            r == Jungseong::of_jamo(code as int),
            forall|s: Jungseong| #[trigger] s.has_codepoint(code as int) <==> r == Some(s),
    {
        match code {
            0x1161 | 0x314F => Some(Jungseong::A),
            0x1162 | 0x3150 => Some(Jungseong::AE),
            0x1163 | 0x3151 => Some(Jungseong::YA),
            0x1164 | 0x3152 => Some(Jungseong::YAE),
            0x1165 | 0x3153 => Some(Jungseong::EO),
            0x1166 | 0x3154 => Some(Jungseong::E),
            0x1167 | 0x3155 => Some(Jungseong::YEO),
            0x1168 | 0x3156 => Some(Jungseong::YE),
            0x1169 | 0x3157 => Some(Jungseong::O),
            0x116A | 0x3158 => Some(Jungseong::WA),
            0x116B | 0x3159 => Some(Jungseong::WAE),
            0x116C | 0x315A => Some(Jungseong::OE),
            0x116D | 0x315B => Some(Jungseong::YO),
            0x116E | 0x315C => Some(Jungseong::U),
            0x116F | 0x315D => Some(Jungseong::WEO),
            0x1170 | 0x315E => Some(Jungseong::WE),
            0x1171 | 0x315F => Some(Jungseong::WI),
            0x1172 | 0x3160 => Some(Jungseong::YU),
            0x1173 | 0x3161 => Some(Jungseong::EU),
            0x1174 | 0x3162 => Some(Jungseong::YI),
            0x1175 | 0x3163 => Some(Jungseong::I),
            _ => None,
        }
    }

    /// The vowel as a character that stands alone: its compatibility jamo.
    pub fn to_char(&self) -> (r: char)
        ensures
            r as nat == self.compatibility(),
    {
        match self {
            Jungseong::A => 'ㅏ',
            Jungseong::AE => 'ㅐ',
            Jungseong::YA => 'ㅑ',
            Jungseong::YAE => 'ㅒ',
            Jungseong::EO => 'ㅓ',
            Jungseong::E => 'ㅔ',
            Jungseong::YEO => 'ㅕ',
            Jungseong::YE => 'ㅖ',
            Jungseong::O => 'ㅗ',
            Jungseong::WA => 'ㅘ',
            Jungseong::WAE => 'ㅙ',
            Jungseong::OE => 'ㅚ',
            Jungseong::YO => 'ㅛ',
            Jungseong::U => 'ㅜ',
            Jungseong::WEO => 'ㅝ',
            Jungseong::WE => 'ㅞ',
            Jungseong::WI => 'ㅟ',
            Jungseong::YU => 'ㅠ',
            Jungseong::EU => 'ㅡ',
            Jungseong::YI => 'ㅢ',
            Jungseong::I => 'ㅣ',
        }
    }

    /// Place and vowel determine each other: the places are those from 0 to
    /// 20, and `of_index` gives a vowel exactly at its own place.
    pub proof fn lemma_of_index(i: int)
        ensures
            0 <= i <= 20 <==> Jungseong::of_index(i) is Some,
            forall|s: Jungseong| #[trigger] s.index() == i <==> Jungseong::of_index(i) == Some(s),
    {
    }

    /// A jamo stands for the vowel `s` exactly if it is one of the two jamo of
    /// `s`.
    pub proof fn lemma_of_jamo(s: Jungseong, code: int)
        ensures
            s.has_codepoint(code) <==> Jungseong::of_jamo(code) == Some(s),
    {
    }

    /// Reading either jamo of a vowel gives the vowel back, and both jamo lie
    /// in their blocks: the conjoining one among the 21 vowels from U+1161,
    /// the other among the 21 compatibility vowels from U+314F.
    pub proof fn lemma_jamo_round_trip(s: Jungseong)
        ensures
            Jungseong::of_jamo(s.positional() as int) == Some(s),
            Jungseong::of_jamo(s.compatibility() as int) == Some(s),
            JUNGSEONG_START <= s.positional() <= JUNGSEONG_START + 20,
            JUNGSEONG_COMPAT_START <= s.compatibility() <= JUNGSEONG_COMPAT_START + 20,
    {
    }

    /// Every codepoint of the block of conjoining vowels stands for a vowel,
    /// and that vowel's conjoining jamo is the codepoint again.
    pub proof fn lemma_positional_round_trip(code: int)
        requires
            JUNGSEONG_START <= code <= JUNGSEONG_START + 20,
        ensures
            Jungseong::of_jamo(code) matches Some(s) && s.positional() == code,
    {
    }

    /// Every codepoint of the block of compatibility vowels stands for a
    /// vowel, whose compatibility jamo is the codepoint again and whose
    /// conjoining jamo lies in the block of vowels.
    pub proof fn lemma_compatibility_round_trip(code: int)
        requires
            JUNGSEONG_COMPAT_START <= code <= JUNGSEONG_COMPAT_START + 20,
        ensures
            ({
                &&& Jungseong::of_jamo(code) matches Some(s)
                &&& s.compatibility() == code
                &&& JUNGSEONG_START <= s.positional() <= JUNGSEONG_START + 20
            }),
    {
    }

    /// No two vowels share a place, a conjoining jamo or a compatibility
    /// jamo.
    pub proof fn lemma_distinct(a: Jungseong, b: Jungseong)
        requires
            a != b,
        ensures
            a.index() != b.index(),
            a.positional() != b.positional(),
            a.compatibility() != b.compatibility(),
    {
    }
}

impl Syllable for Jungseong {
    open spec fn index(&self) -> nat {
        match self {
            Jungseong::A => 0,
            Jungseong::AE => 1,
            Jungseong::YA => 2,
            Jungseong::YAE => 3,
            Jungseong::EO => 4,
            Jungseong::E => 5,
            Jungseong::YEO => 6,
            Jungseong::YE => 7,
            Jungseong::O => 8,
            Jungseong::WA => 9,
            Jungseong::WAE => 10,
            Jungseong::OE => 11,
            Jungseong::YO => 12,
            Jungseong::U => 13,
            Jungseong::WEO => 14,
            Jungseong::WE => 15,
            Jungseong::WI => 16,
            Jungseong::YU => 17,
            Jungseong::EU => 18,
            Jungseong::YI => 19,
            Jungseong::I => 20,
        }
    }

    open spec fn positional(&self) -> nat {
        JUNGSEONG_START as nat + self.index()
    }

    open spec fn composable(&self) -> nat {
        self.index() * JUNGSEONG_COUNT as nat
    }

    /// The conjoining jamo of the vowel, from U+1161 to U+1175.
    fn to_u32(&self) -> (r: u32)
        ensures
            JUNGSEONG_START <= r <= JUNGSEONG_START + 20,
    {
        Self::to_index(self) + JUNGSEONG_START
    }

    /// 28 for each place: the syllables of one initial consonant and one vowel
    /// stand together.
    fn composable_u32(&self) -> (r: u32)
        ensures
            r <= 20 * JUNGSEONG_COUNT,
    {
        Self::to_index(self) * JUNGSEONG_COUNT
    }

    /// Place of the vowel among the 21 vowels, from 0.
    fn to_index(&self) -> (r: u32)
        ensures
            r <= 20,
    {
        match self {
            Jungseong::A => 0,
            Jungseong::AE => 1,
            Jungseong::YA => 2,
            Jungseong::YAE => 3,
            Jungseong::EO => 4,
            Jungseong::E => 5,
            Jungseong::YEO => 6,
            Jungseong::YE => 7,
            Jungseong::O => 8,
            Jungseong::WA => 9,
            Jungseong::WAE => 10,
            Jungseong::OE => 11,
            Jungseong::YO => 12,
            Jungseong::U => 13,
            Jungseong::WEO => 14,
            Jungseong::WE => 15,
            Jungseong::WI => 16,
            Jungseong::YU => 17,
            Jungseong::EU => 18,
            Jungseong::YI => 19,
            Jungseong::I => 20,
        }
    }
}

/// Final consonant of a syllable. A syllable need not have one: that is no
/// value of this type, but the absence of one.
#[derive(Clone, Copy, Debug, PartialEq, Eq, Structural)]
pub enum Jongseong {
    /// ㄱ
    Giyeok,
    /// ㄲ
    SsangGiyeok,
    /// ㄳ
    GiyeokSiot,
    /// ㄴ
    Nieun,
    /// ㄵ
    NieunJieut,
    /// ㄶ
    NieunHieuh,
    /// ㄷ
    Digeut,
    /// ㄹ
    Rieul,
    /// ㄺ
    RieulGiyeok,
    /// ㄻ
    RieulMieum,
    /// ㄼ
    RieulBieup,
    /// ㄽ
    RieulSiot,
    /// ㄾ
    RieulTieut,
    /// ㄿ
    RieulPieup,
    /// ㅀ
    RieulHieuh,
    /// ㅁ
    Mieum,
    /// ㅂ
    Bieup,
    /// ㅄ
    BieupSiot,
    /// ㅅ
    Siot,
    /// ㅆ
    SsangSiot,
    /// ㅇ
    Ieung,
    /// ㅈ
    Jieut,
    /// ㅊ
    Chieut,
    /// ㅋ
    Kieuk,
    /// ㅌ
    Tieut,
    /// ㅍ
    Pieup,
    /// ㅎ
    Hieuh,
}

impl Jongseong {
    /// Codepoint of the consonant as a compatibility jamo, the form in which
    /// it stands alone.
    pub open spec fn compatibility(self) -> nat {
        match self {
            Jongseong::Giyeok => 0x3131,
            Jongseong::SsangGiyeok => 0x3132,
            Jongseong::GiyeokSiot => 0x3133,
            Jongseong::Nieun => 0x3134,
            Jongseong::NieunJieut => 0x3135,
            Jongseong::NieunHieuh => 0x3136,
            Jongseong::Digeut => 0x3137,
            Jongseong::Rieul => 0x3139,
            Jongseong::RieulGiyeok => 0x313A,
            Jongseong::RieulMieum => 0x313B,
            Jongseong::RieulBieup => 0x313C,
            Jongseong::RieulSiot => 0x313D,
            Jongseong::RieulTieut => 0x313E,
            Jongseong::RieulPieup => 0x313F,
            Jongseong::RieulHieuh => 0x3140,
            Jongseong::Mieum => 0x3141,
            Jongseong::Bieup => 0x3142,
            Jongseong::BieupSiot => 0x3144,
            Jongseong::Siot => 0x3145,
            Jongseong::SsangSiot => 0x3146,
            Jongseong::Ieung => 0x3147,
            Jongseong::Jieut => 0x3148,
            Jongseong::Chieut => 0x314A,
            Jongseong::Kieuk => 0x314B,
            Jongseong::Tieut => 0x314C,
            Jongseong::Pieup => 0x314D,
            Jongseong::Hieuh => 0x314E,
        }
    }

    /// The consonant at place `i` of the alphabet, if there is one. There is
    /// none at place 0.
    pub open spec fn of_index(i: int) -> Option<Jongseong> {
        if i == Jongseong::Giyeok.index() {
            Some(Jongseong::Giyeok)
        } else if i == Jongseong::SsangGiyeok.index() {
            Some(Jongseong::SsangGiyeok)
        } else if i == Jongseong::GiyeokSiot.index() {
            Some(Jongseong::GiyeokSiot)
        } else if i == Jongseong::Nieun.index() {
            Some(Jongseong::Nieun)
        } else if i == Jongseong::NieunJieut.index() {
            Some(Jongseong::NieunJieut)
        } else if i == Jongseong::NieunHieuh.index() {
            Some(Jongseong::NieunHieuh)
        } else if i == Jongseong::Digeut.index() {
            Some(Jongseong::Digeut)
        } else if i == Jongseong::Rieul.index() {
            Some(Jongseong::Rieul)
        } else if i == Jongseong::RieulGiyeok.index() {
            Some(Jongseong::RieulGiyeok)
        } else if i == Jongseong::RieulMieum.index() {
            Some(Jongseong::RieulMieum)
        } else if i == Jongseong::RieulBieup.index() {
            Some(Jongseong::RieulBieup)
        } else if i == Jongseong::RieulSiot.index() {
            Some(Jongseong::RieulSiot)
        } else if i == Jongseong::RieulTieut.index() {
            Some(Jongseong::RieulTieut)
        } else if i == Jongseong::RieulPieup.index() {
            Some(Jongseong::RieulPieup)
        } else if i == Jongseong::RieulHieuh.index() {
            Some(Jongseong::RieulHieuh)
        } else if i == Jongseong::Mieum.index() {
            Some(Jongseong::Mieum)
        } else if i == Jongseong::Bieup.index() {
            Some(Jongseong::Bieup)
        } else if i == Jongseong::BieupSiot.index() {
            Some(Jongseong::BieupSiot)
        } else if i == Jongseong::Siot.index() {
            Some(Jongseong::Siot)
        } else if i == Jongseong::SsangSiot.index() {
            Some(Jongseong::SsangSiot)
        } else if i == Jongseong::Ieung.index() {
            Some(Jongseong::Ieung)
        } else if i == Jongseong::Jieut.index() {
            Some(Jongseong::Jieut)
        } else if i == Jongseong::Chieut.index() {
            Some(Jongseong::Chieut)
        } else if i == Jongseong::Kieuk.index() {
            Some(Jongseong::Kieuk)
        } else if i == Jongseong::Tieut.index() {
            Some(Jongseong::Tieut)
        } else if i == Jongseong::Pieup.index() {
            Some(Jongseong::Pieup)
        } else if i == Jongseong::Hieuh.index() {
            Some(Jongseong::Hieuh)
        } else {
            None
        }
    }

    /// The consonant that `code` stands for as a compatibility jamo, if it
    /// stands for one.
    pub open spec fn of_compatibility(code: int) -> Option<Jongseong> {
        if code == Jongseong::Giyeok.compatibility() {
            Some(Jongseong::Giyeok)
        } else if code == Jongseong::SsangGiyeok.compatibility() {
            Some(Jongseong::SsangGiyeok)
        } else if code == Jongseong::GiyeokSiot.compatibility() {
            Some(Jongseong::GiyeokSiot)
        } else if code == Jongseong::Nieun.compatibility() {
            Some(Jongseong::Nieun)
        } else if code == Jongseong::NieunJieut.compatibility() {
            Some(Jongseong::NieunJieut)
        } else if code == Jongseong::NieunHieuh.compatibility() {
            Some(Jongseong::NieunHieuh)
        } else if code == Jongseong::Digeut.compatibility() {
            Some(Jongseong::Digeut)
        } else if code == Jongseong::Rieul.compatibility() {
            Some(Jongseong::Rieul)
        } else if code == Jongseong::RieulGiyeok.compatibility() {
            Some(Jongseong::RieulGiyeok)
        } else if code == Jongseong::RieulMieum.compatibility() {
            Some(Jongseong::RieulMieum)
        } else if code == Jongseong::RieulBieup.compatibility() {
            Some(Jongseong::RieulBieup)
        } else if code == Jongseong::RieulSiot.compatibility() {
            Some(Jongseong::RieulSiot)
        } else if code == Jongseong::RieulTieut.compatibility() {
            Some(Jongseong::RieulTieut)
        } else if code == Jongseong::RieulPieup.compatibility() {
            Some(Jongseong::RieulPieup)
        } else if code == Jongseong::RieulHieuh.compatibility() {
            Some(Jongseong::RieulHieuh)
        } else if code == Jongseong::Mieum.compatibility() {
            Some(Jongseong::Mieum)
        } else if code == Jongseong::Bieup.compatibility() {
            Some(Jongseong::Bieup)
        } else if code == Jongseong::BieupSiot.compatibility() {
            Some(Jongseong::BieupSiot)
        } else if code == Jongseong::Siot.compatibility() {
            Some(Jongseong::Siot)
        } else if code == Jongseong::SsangSiot.compatibility() {
            Some(Jongseong::SsangSiot)
        } else if code == Jongseong::Ieung.compatibility() {
            Some(Jongseong::Ieung)
        } else if code == Jongseong::Jieut.compatibility() {
            Some(Jongseong::Jieut)
        } else if code == Jongseong::Chieut.compatibility() {
            Some(Jongseong::Chieut)
        } else if code == Jongseong::Kieuk.compatibility() {
            Some(Jongseong::Kieuk)
        } else if code == Jongseong::Tieut.compatibility() {
            Some(Jongseong::Tieut)
        } else if code == Jongseong::Pieup.compatibility() {
            Some(Jongseong::Pieup)
        } else if code == Jongseong::Hieuh.compatibility() {
            Some(Jongseong::Hieuh)
        } else {
            None
        }
    }

    /// Whether `code` is one of the two jamo of this consonant.
    pub open spec fn has_codepoint(self, code: int) -> bool {
        code == self.positional() || code == self.compatibility()
    }

    /// The consonant that `code` stands for as a jamo of either block.
    pub open spec fn of_jamo(code: int) -> Option<Jongseong> {
        match Jongseong::of_index(code - JONGSEONG_START + 1) {
            Some(s) => Some(s),
            None => Jongseong::of_compatibility(code),
        }
    }

    /// The final consonant of the syllable `code`; `None` where the syllable
    /// has none.
    pub open spec fn of_syllable(code: int) -> Option<Jongseong> {
        Jongseong::of_index((code - HANGEUL_OFFSET) % (JUNGSEONG_COUNT as int))
    }

    /// The consonant that `code` holds: the final consonant of a syllable, or
    /// the consonant that a jamo stands for.
    pub open spec fn of_codepoint(code: int) -> Option<Jongseong> {
        if syllable_code(code) {
            Jongseong::of_syllable(code)
        } else {
            Jongseong::of_jamo(code)
        }
    }

    /// Reads the final consonant out of a character: a syllable or a jamo.
    pub fn from_char(c: &char) -> (r: Option<Jongseong>)
        ensures
            r == Jongseong::of_codepoint(*c as int),
    {
        Jongseong::from_u32(*c as u32)
    }

    /// Reads the final consonant out of a codepoint. A syllable gives its
    /// final consonant, `None` if it has none; any other codepoint is read as
    /// a jamo.
    pub fn from_u32(code: u32) -> (r: Option<Jongseong>)
        ensures
            r == Jongseong::of_codepoint(code as int),
            syllable_code(code as int) ==> ({
                let slot = (code - HANGEUL_OFFSET) % (JUNGSEONG_COUNT as int);
                r is None <==> slot == 0
            }),
    {
        match is_syllable(code) {
            true => Jongseong::from_syllable(code),
            false => Jongseong::from_jamo(code),
        }
    }

    /// The final consonant of a syllable: the one whose place in the alphabet
    /// is the syllable's offset in the block modulo 28. A syllable with
    /// remainder 0 has no final consonant, and gives `None`.
    pub fn from_syllable(code: u32) -> (r: Option<Jongseong>)
        requires
            syllable_code(code as int),
        ensures
            r == Jongseong::of_syllable(code as int),
            ({
                let slot = (code - HANGEUL_OFFSET) % (JUNGSEONG_COUNT as int);
                match r {
                    Some(s) => s.index() == slot,
                    None => slot == 0,
                }
            }),
    {
        let value: u32 = (code - HANGEUL_OFFSET) % JUNGSEONG_COUNT;

        proof {
            lemma_offset_splits(code - HANGEUL_OFFSET);
        }
        Self::from_jamo(value + JONGSEONG_START - 1)
    }

    /// The consonant that a jamo stands for, whether `code` is the conjoining
    /// or the compatibility jamo; `None` for every other codepoint.
    pub fn from_jamo(code: u32) -> (r: Option<Jongseong>)
        ensures
            r == Jongseong::of_jamo(code as int),
            forall|s: Jongseong| #[trigger] s.has_codepoint(code as int) <==> r == Some(s),
    {
        match code {
            0x11A8 | 0x3131 => Some(Jongseong::Giyeok),
            0x11A9 | 0x3132 => Some(Jongseong::SsangGiyeok),
            0x11AA | 0x3133 => Some(Jongseong::GiyeokSiot),
            0x11AB | 0x3134 => Some(Jongseong::Nieun),
            0x11AC | 0x3135 => Some(Jongseong::NieunJieut),
            0x11AD | 0x3136 => Some(Jongseong::NieunHieuh),
            0x11AE | 0x3137 => Some(Jongseong::Digeut),
            0x11AF | 0x3139 => Some(Jongseong::Rieul),
            0x11B0 | 0x313A => Some(Jongseong::RieulGiyeok),
            0x11B1 | 0x313B => Some(Jongseong::RieulMieum),
            0x11B2 | 0x313C => Some(Jongseong::RieulBieup),
            0x11B3 | 0x313D => Some(Jongseong::RieulSiot),
            0x11B4 | 0x313E => Some(Jongseong::RieulTieut),
            0x11B5 | 0x313F => Some(Jongseong::RieulPieup),
            0x11B6 | 0x3140 => Some(Jongseong::RieulHieuh),
            0x11B7 | 0x3141 => Some(Jongseong::Mieum),
            0x11B8 | 0x3142 => Some(Jongseong::Bieup),
            0x11B9 | 0x3144 => Some(Jongseong::BieupSiot),
            0x11BA | 0x3145 => Some(Jongseong::Siot),
            0x11BB | 0x3146 => Some(Jongseong::SsangSiot),
            0x11BC | 0x3147 => Some(Jongseong::Ieung),
            0x11BD | 0x3148 => Some(Jongseong::Jieut),
            0x11BE | 0x314A => Some(Jongseong::Chieut),
            0x11BF | 0x314B => Some(Jongseong::Kieuk),
            0x11C0 | 0x314C => Some(Jongseong::Tieut),
            0x11C1 | 0x314D => Some(Jongseong::Pieup),
            0x11C2 | 0x314E => Some(Jongseong::Hieuh),
            _ => None,
        }
    }

    /// The consonant as a character that stands alone: its compatibility
    /// jamo.
    pub fn to_char(&self) -> (r: char)
        ensures
            r as nat == self.compatibility(),
    {
        match self {
            Jongseong::Giyeok => 'ㄱ',
            Jongseong::SsangGiyeok => 'ㄲ',
            Jongseong::GiyeokSiot => 'ㄳ',
            Jongseong::Nieun => 'ㄴ',
            Jongseong::NieunJieut => 'ㄵ',
            Jongseong::NieunHieuh => 'ㄶ',
            Jongseong::Digeut => 'ㄷ',
            Jongseong::Rieul => 'ㄹ',
            Jongseong::RieulGiyeok => 'ㄺ',
            Jongseong::RieulMieum => 'ㄻ',
            Jongseong::RieulBieup => 'ㄼ',
            Jongseong::RieulSiot => 'ㄽ',
            Jongseong::RieulTieut => 'ㄾ',
            Jongseong::RieulPieup => 'ㄿ',
            Jongseong::RieulHieuh => 'ㅀ',
            Jongseong::Mieum => 'ㅁ',
            Jongseong::Bieup => 'ㅂ',
            Jongseong::BieupSiot => 'ㅄ',
            Jongseong::Siot => 'ㅅ',
            Jongseong::SsangSiot => 'ㅆ',
            Jongseong::Ieung => 'ㅇ',
            Jongseong::Jieut => 'ㅈ',
            Jongseong::Chieut => 'ㅊ',
            Jongseong::Kieuk => 'ㅋ',
            Jongseong::Tieut => 'ㅌ',
            Jongseong::Pieup => 'ㅍ',
            Jongseong::Hieuh => 'ㅎ',
        }
    }

    /// Place and consonant determine each other: the places are those from 1
    /// to 27, and `of_index` gives a consonant exactly at its own place.
    pub proof fn lemma_of_index(i: int)
        ensures
            1 <= i <= 27 <==> Jongseong::of_index(i) is Some,
            forall|s: Jongseong| #[trigger] s.index() == i <==> Jongseong::of_index(i) == Some(s),
    {
    }

    /// A jamo stands for the consonant `s` exactly if it is one of the two
    /// jamo of `s`.
    pub proof fn lemma_of_jamo(s: Jongseong, code: int)
        ensures
            s.has_codepoint(code) <==> Jongseong::of_jamo(code) == Some(s),
    {
    }

    /// Reading either jamo of a consonant gives the consonant back, and both
    /// jamo lie in their blocks: the conjoining one among the 27 final
    /// consonants from U+11A8, the other among the compatibility consonants.
    pub proof fn lemma_jamo_round_trip(s: Jongseong)
        ensures
            Jongseong::of_jamo(s.positional() as int) == Some(s),
            Jongseong::of_jamo(s.compatibility() as int) == Some(s),
            JONGSEONG_START <= s.positional() <= JONGSEONG_START + 26,
            0x3131 <= s.compatibility() <= 0x314E,
    {
    }

    /// Every codepoint of the block of conjoining final consonants stands for
    /// a consonant, and that consonant's conjoining jamo is the codepoint
    /// again.
    pub proof fn lemma_positional_round_trip(code: int)
        requires
            JONGSEONG_START <= code <= JONGSEONG_START + 26,
        ensures
            Jongseong::of_jamo(code) matches Some(s) && s.positional() == code,
    {
    }

    /// Every compatibility jamo of a final consonant stands for a
    /// consonant, whose compatibility jamo is the codepoint again and whose
    /// conjoining jamo lies in the block of final consonants.
    pub proof fn lemma_compatibility_round_trip(code: int)
        requires
            Jongseong::of_compatibility(code) is Some,
        ensures
            ({
                &&& Jongseong::of_jamo(code) matches Some(s)
                &&& s.compatibility() == code
                &&& JONGSEONG_START <= s.positional() <= JONGSEONG_START + 26
            }),
    {
    }

    /// No two consonants share a place, a conjoining jamo or a compatibility
    /// jamo.
    pub proof fn lemma_distinct(a: Jongseong, b: Jongseong)
        requires
            a != b,
        ensures
            a.index() != b.index(),
            a.positional() != b.positional(),
            a.compatibility() != b.compatibility(),
    {
    }
}

impl Syllable for Jongseong {
    open spec fn index(&self) -> nat {
        match self {
            Jongseong::Giyeok => 1,
            Jongseong::SsangGiyeok => 2,
            Jongseong::GiyeokSiot => 3,
            Jongseong::Nieun => 4,
            Jongseong::NieunJieut => 5,
            Jongseong::NieunHieuh => 6,
            Jongseong::Digeut => 7,
            Jongseong::Rieul => 8,
            Jongseong::RieulGiyeok => 9,
            Jongseong::RieulMieum => 10,
            Jongseong::RieulBieup => 11,
            Jongseong::RieulSiot => 12,
            Jongseong::RieulTieut => 13,
            Jongseong::RieulPieup => 14,
            Jongseong::RieulHieuh => 15,
            Jongseong::Mieum => 16,
            Jongseong::Bieup => 17,
            Jongseong::BieupSiot => 18,
            Jongseong::Siot => 19,
            Jongseong::SsangSiot => 20,
            Jongseong::Ieung => 21,
            Jongseong::Jieut => 22,
            Jongseong::Chieut => 23,
            Jongseong::Kieuk => 24,
            Jongseong::Tieut => 25,
            Jongseong::Pieup => 26,
            Jongseong::Hieuh => 27,
        }
    }

    open spec fn positional(&self) -> nat {
        (JONGSEONG_START + self.index() - 1) as nat
    }

    open spec fn composable(&self) -> nat {
        self.index()
    }

    /// The conjoining jamo of the consonant, from U+11A8 to U+11C2. Places
    /// count from 1, so the first consonant stands at `JONGSEONG_START`.
    fn to_u32(&self) -> (r: u32)
        ensures
            JONGSEONG_START <= r <= JONGSEONG_START + 26,
    {
        Self::to_index(self) + JONGSEONG_START - 1
    }

    /// The place itself: the final slot is the last digit of a syllable's
    /// offset, and never 0 for a consonant.
    fn composable_u32(&self) -> (r: u32)
        ensures
            1 <= r <= 27,
    {
        Self::to_index(self)
    }

    /// Place of the consonant among the 27 final consonants, from 1.
    fn to_index(&self) -> (r: u32)
        ensures
            1 <= r <= 27,
    {
        match self {
            Jongseong::Giyeok => 1,
            Jongseong::SsangGiyeok => 2,
            Jongseong::GiyeokSiot => 3,
            Jongseong::Nieun => 4,
            Jongseong::NieunJieut => 5,
            Jongseong::NieunHieuh => 6,
            Jongseong::Digeut => 7,
            Jongseong::Rieul => 8,
            Jongseong::RieulGiyeok => 9,
            Jongseong::RieulMieum => 10,
            Jongseong::RieulBieup => 11,
            Jongseong::RieulSiot => 12,
            Jongseong::RieulTieut => 13,
            Jongseong::RieulPieup => 14,
            Jongseong::RieulHieuh => 15,
            Jongseong::Mieum => 16,
            Jongseong::Bieup => 17,
            Jongseong::BieupSiot => 18,
            Jongseong::Siot => 19,
            Jongseong::SsangSiot => 20,
            Jongseong::Ieung => 21,
            Jongseong::Jieut => 22,
            Jongseong::Chieut => 23,
            Jongseong::Kieuk => 24,
            Jongseong::Tieut => 25,
            Jongseong::Pieup => 26,
            Jongseong::Hieuh => 27,
        }
    }
}

} // verus!
