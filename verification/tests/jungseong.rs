use hangeul::models::{Jungseong, Syllable};

const ALL: [Jungseong; 21] = [
    Jungseong::A,
    Jungseong::AE,
    Jungseong::YA,
    Jungseong::YAE,
    Jungseong::EO,
    Jungseong::E,
    Jungseong::YEO,
    Jungseong::YE,
    Jungseong::O,
    Jungseong::WA,
    Jungseong::WAE,
    Jungseong::OE,
    Jungseong::YO,
    Jungseong::U,
    Jungseong::WEO,
    Jungseong::WE,
    Jungseong::WI,
    Jungseong::YU,
    Jungseong::EU,
    Jungseong::YI,
    Jungseong::I,
];

const DISPLAY: [char; 21] = [
    'ㅏ', 'ㅐ', 'ㅑ', 'ㅒ', 'ㅓ', 'ㅔ', 'ㅕ', 'ㅖ', 'ㅗ', 'ㅘ', 'ㅙ', 'ㅚ', 'ㅛ', 'ㅜ', 'ㅝ', 'ㅞ', 'ㅟ',
    'ㅠ', 'ㅡ', 'ㅢ', 'ㅣ',
];

#[test]
fn jungseong_a_from_both_blocks() {
    assert_eq!(Jungseong::from_jamo(0x1161), Some(Jungseong::A));
    assert_eq!(Jungseong::from_jamo(0x314F), Some(Jungseong::A));
    assert_eq!(Jungseong::A.to_char(), 'ㅏ');
    assert_eq!(Jungseong::A.to_u32(), 0x1161);
}

#[test]
fn jungseong_places_count_from_zero() {
    for (place, sound) in ALL.iter().enumerate() {
        assert_eq!(sound.to_index(), place as u32);
    }
    assert_eq!(Jungseong::A.to_index(), 0);
    assert_eq!(Jungseong::I.to_index(), 20);
}

#[test]
fn jungseong_conjoining_jamo_follow_the_places() {
    for (place, sound) in ALL.iter().enumerate() {
        assert_eq!(sound.to_u32(), 0x1161 + place as u32);
    }
    assert_eq!(Jungseong::I.to_u32(), 0x1175);
}

#[test]
fn jungseong_composable_value_is_28_per_place() {
    for (place, sound) in ALL.iter().enumerate() {
        assert_eq!(sound.composable_u32(), 28 * place as u32);
    }
    assert_eq!(Jungseong::A.composable_u32(), 0);
    assert_eq!(Jungseong::AE.composable_u32(), 28);
    assert_eq!(Jungseong::I.composable_u32(), 560);
}

#[test]
fn jungseong_display_characters() {
    for (place, sound) in ALL.iter().enumerate() {
        assert_eq!(sound.to_char(), DISPLAY[place]);
        assert_eq!(sound.to_char() as u32, 0x314F + place as u32);
    }
}

#[test]
fn jungseong_both_jamo_read_back() {
    for sound in ALL.iter() {
        assert_eq!(Jungseong::from_jamo(sound.to_u32()), Some(*sound));
        assert_eq!(Jungseong::from_jamo(sound.to_char() as u32), Some(*sound));
        assert_eq!(Jungseong::from_u32(sound.to_u32()), Some(*sound));
        assert_eq!(Jungseong::from_char(&sound.to_char()), Some(*sound));
    }
}

#[test]
fn jungseong_both_blocks_read_into_the_conjoining_block() {
    for code in 0x1161u32..=0x1175 {
        let sound = Jungseong::from_jamo(code).expect("a vowel of the block");
        assert_eq!(sound.to_u32(), code);
    }
    for code in 0x314Fu32..=0x3163 {
        let sound = Jungseong::from_jamo(code).expect("a compatibility vowel");
        assert_eq!(sound.to_char() as u32, code);
        assert!((0x1161..=0x1175).contains(&sound.to_u32()));
    }
}

#[test]
fn jungseong_no_two_collide() {
    for (i, a) in ALL.iter().enumerate() {
        for (j, b) in ALL.iter().enumerate() {
            if i != j {
                assert_ne!(a, b);
                assert_ne!(a.to_index(), b.to_index());
                assert_ne!(a.to_u32(), b.to_u32());
                assert_ne!(a.to_char(), b.to_char());
                assert_ne!(a.composable_u32(), b.composable_u32());
            }
        }
    }
}

#[test]
fn jungseong_other_codepoints_are_none() {
    assert_eq!(Jungseong::from_jamo(0), None);
    assert_eq!(Jungseong::from_jamo(0x1160), None);
    assert_eq!(Jungseong::from_jamo(0x1176), None);
    assert_eq!(Jungseong::from_jamo(0x314E), None);
    assert_eq!(Jungseong::from_jamo(0x3164), None);
    assert_eq!(Jungseong::from_jamo(0x1100), None);
    assert_eq!(Jungseong::from_jamo(0x11A8), None);
    assert_eq!(Jungseong::from_jamo(u32::MAX), None);
    assert_eq!(Jungseong::from_char(&'a'), None);
    assert_eq!(Jungseong::from_char(&'ㄱ'), None);
}

#[test]
fn jungseong_jamo_lookup_finds_exactly_the_table() {
    let mut found = 0;
    for code in 0u32..0x20000 {
        if let Some(sound) = Jungseong::from_jamo(code) {
            found += 1;
            assert!(code == sound.to_u32() || code == sound.to_char() as u32);
        }
    }
    assert_eq!(found, 42);
}

#[test]
fn jungseong_from_syllable_takes_the_middle_digit() {
    assert_eq!(Jungseong::from_syllable(0xAC00), Some(Jungseong::A));
    assert_eq!(Jungseong::from_syllable(0xAC00 + 27), Some(Jungseong::A));
    assert_eq!(Jungseong::from_syllable(0xAC00 + 28), Some(Jungseong::AE));
    assert_eq!(Jungseong::from_syllable(0xAC00 + 587), Some(Jungseong::I));
    assert_eq!(Jungseong::from_syllable(0xAC00 + 588), Some(Jungseong::A));
    assert_eq!(Jungseong::from_syllable(0xD7A3), Some(Jungseong::I));
    assert_eq!(Jungseong::from_syllable('한' as u32), Some(Jungseong::A));
    assert_eq!(Jungseong::from_syllable('글' as u32), Some(Jungseong::EU));
}

#[test]
fn jungseong_from_u32_reads_syllables_and_jamo() {
    assert_eq!(Jungseong::from_u32('글' as u32), Some(Jungseong::EU));
    assert_eq!(Jungseong::from_u32(0x1173), Some(Jungseong::EU));
    assert_eq!(Jungseong::from_u32(0x3161), Some(Jungseong::EU));
    assert_eq!(Jungseong::from_u32(0x41), None);
    assert_eq!(Jungseong::from_char(&'왜'), Some(Jungseong::WAE));
    assert_eq!(Jungseong::from_char(&'ㅙ'), Some(Jungseong::WAE));
}

#[test]
fn jungseong_outside_the_syllable_block_is_none() {
    assert_eq!(Jungseong::from_u32(0xABFF), None);
    assert_eq!(Jungseong::from_u32(0xD7A4), None);
}
