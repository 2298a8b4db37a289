use hangeul::models::{Choseong, Syllable};

const ALL: [Choseong; 19] = [
    Choseong::Giyeok,
    Choseong::SsangGiyeok,
    Choseong::Nieun,
    Choseong::Digeut,
    Choseong::SsangDigeut,
    Choseong::Rieul,
    Choseong::Mieum,
    Choseong::Bieup,
    Choseong::SsangBieup,
    Choseong::Siot,
    Choseong::SsangSiot,
    Choseong::Ieung,
    Choseong::Jieut,
    Choseong::SsangJieut,
    Choseong::Chieut,
    Choseong::Kiyeok,
    Choseong::Tieut,
    Choseong::Pieup,
    Choseong::Hieuh,
];

const DISPLAY: [char; 19] = [
    'ㄱ', 'ㄲ', 'ㄴ', 'ㄷ', 'ㄸ', 'ㄹ', 'ㅁ', 'ㅂ', 'ㅃ', 'ㅅ', 'ㅆ', 'ㅇ', 'ㅈ', 'ㅉ', 'ㅊ', 'ㅋ', 'ㅌ',
    'ㅍ', 'ㅎ',
];

const COMPATIBILITY: [u32; 19] = [
    0x3131, 0x3132, 0x3134, 0x3137, 0x3138, 0x3139, 0x3141, 0x3142, 0x3143, 0x3145, 0x3146,
    0x3147, 0x3148, 0x3149, 0x314A, 0x314B, 0x314C, 0x314D, 0x314E,
];

#[test]
fn choseong_giyeok_from_both_blocks() {
    assert_eq!(Choseong::from_jamo(0x1100), Some(Choseong::Giyeok));
    assert_eq!(Choseong::from_jamo(0x3131), Some(Choseong::Giyeok));
    assert_eq!(Choseong::Giyeok.to_char(), 'ㄱ');
    assert_eq!(Choseong::Giyeok.to_u32(), 0x1100);
}

#[test]
fn choseong_places_count_from_zero() {
    for (place, sound) in ALL.iter().enumerate() {
        assert_eq!(sound.to_index(), place as u32);
    }
    assert_eq!(Choseong::Giyeok.to_index(), 0);
    assert_eq!(Choseong::Hieuh.to_index(), 18);
}

#[test]
fn choseong_conjoining_jamo_follow_the_places() {
    for (place, sound) in ALL.iter().enumerate() {
        assert_eq!(sound.to_u32(), 0x1100 + place as u32);
    }
    assert_eq!(Choseong::Hieuh.to_u32(), 0x1112);
}

#[test]
fn choseong_composable_value_is_588_per_place() {
    for (place, sound) in ALL.iter().enumerate() {
        assert_eq!(sound.composable_u32(), 588 * place as u32);
    }
    assert_eq!(Choseong::Giyeok.composable_u32(), 0);
    assert_eq!(Choseong::Nieun.composable_u32(), 1176);
    assert_eq!(Choseong::Hieuh.composable_u32(), 10584);
}

#[test]
fn choseong_display_characters() {
    for (place, sound) in ALL.iter().enumerate() {
        assert_eq!(sound.to_char(), DISPLAY[place]);
        assert_eq!(sound.to_char() as u32, COMPATIBILITY[place]);
    }
}

#[test]
fn choseong_both_jamo_read_back() {
    for sound in ALL.iter() {
        assert_eq!(Choseong::from_jamo(sound.to_u32()), Some(*sound));
        assert_eq!(Choseong::from_jamo(sound.to_char() as u32), Some(*sound));
        assert_eq!(Choseong::from_u32(sound.to_u32()), Some(*sound));
        assert_eq!(Choseong::from_char(&sound.to_char()), Some(*sound));
    }
}

#[test]
fn choseong_conjoining_block_reads_into_itself() {
    for code in 0x1100u32..=0x1112 {
        let sound = Choseong::from_jamo(code).expect("a consonant of the block");
        assert_eq!(sound.to_u32(), code);
        assert!((0x1100..=0x1112).contains(&sound.to_u32()));
    }
}

#[test]
fn choseong_no_two_collide() {
    for (i, a) in ALL.iter().enumerate() {
        for (j, b) in ALL.iter().enumerate() {
            if i != j {
                assert_ne!(a, b);
                assert_ne!(a.to_index(), b.to_index());
                assert_ne!(a.to_u32(), b.to_u32());
                assert_ne!(a.to_char(), b.to_char());
                assert_ne!(a.composable_u32(), b.composable_u32());
            }
        }
    }
}

#[test]
fn choseong_other_codepoints_are_none() {
    assert_eq!(Choseong::from_jamo(0), None);
    assert_eq!(Choseong::from_jamo(0x10FF), None);
    assert_eq!(Choseong::from_jamo(0x1113), None);
    assert_eq!(Choseong::from_jamo(0x3130), None);
    assert_eq!(Choseong::from_jamo(0x314F), None);
    assert_eq!(Choseong::from_jamo(u32::MAX), None);
    // Compound finals have a compatibility jamo but never start a syllable.
    assert_eq!(Choseong::from_jamo(0x3133), None);
    assert_eq!(Choseong::from_jamo(0x3135), None);
    assert_eq!(Choseong::from_jamo(0x3136), None);
    assert_eq!(Choseong::from_jamo(0x313A), None);
    assert_eq!(Choseong::from_jamo(0x3140), None);
    assert_eq!(Choseong::from_jamo(0x3144), None);
    // Vowels and final consonants of the conjoining block.
    assert_eq!(Choseong::from_jamo(0x1161), None);
    assert_eq!(Choseong::from_jamo(0x11A8), None);
    assert_eq!(Choseong::from_char(&'a'), None);
    assert_eq!(Choseong::from_char(&'ㅏ'), None);
}

#[test]
fn choseong_jamo_lookup_finds_exactly_the_table() {
    let mut found = 0;
    for code in 0u32..0x20000 {
        if let Some(sound) = Choseong::from_jamo(code) {
            found += 1;
            assert!(code == sound.to_u32() || code == sound.to_char() as u32);
        }
    }
    assert_eq!(found, 38);
}

#[test]
fn choseong_from_syllable_divides_by_588() {
    assert_eq!(Choseong::from_syllable(0xAC00), Some(Choseong::Giyeok));
    assert_eq!(Choseong::from_syllable(0xAC00 + 587), Some(Choseong::Giyeok));
    assert_eq!(Choseong::from_syllable(0xAC00 + 588), Some(Choseong::SsangGiyeok));
    assert_eq!(Choseong::from_syllable(0xD7A3), Some(Choseong::Hieuh));
    assert_eq!(Choseong::from_syllable('한' as u32), Some(Choseong::Hieuh));
    assert_eq!(Choseong::from_syllable('글' as u32), Some(Choseong::Giyeok));
}

#[test]
fn choseong_from_u32_reads_syllables_and_jamo() {
    assert_eq!(Choseong::from_u32('한' as u32), Some(Choseong::Hieuh));
    assert_eq!(Choseong::from_u32(0x1112), Some(Choseong::Hieuh));
    assert_eq!(Choseong::from_u32(0x314E), Some(Choseong::Hieuh));
    assert_eq!(Choseong::from_u32(0x41), None);
    assert_eq!(Choseong::from_char(&'많'), Some(Choseong::Mieum));
    assert_eq!(Choseong::from_char(&'ㅁ'), Some(Choseong::Mieum));
}

#[test]
fn choseong_outside_the_syllable_block_is_none() {
    assert_eq!(Choseong::from_u32(0xABFF), None);
    assert_eq!(Choseong::from_u32(0xD7A4), None);
}
