use hangeul::{
    CharacterType, Choseong, ChoseongCharacter, ChoseongInformation, Jongseong,
    JongseongCharacter, JongseongInformation, Jungseong, JungseongCharacter,
    JungseongInformation, Syllable, SyllableInformation,
};

#[test]
fn syllable_classification() {
    let below: u32 = 0xABFF;
    let first: u32 = 0xAC00;
    let last: u32 = 0xD7A3;
    let above: u32 = 0xD7A4;
    assert!(!below.is_syllable());
    assert!(first.is_syllable());
    assert!(last.is_syllable());
    assert!(!above.is_syllable());
    assert!('가'.is_syllable());
    assert!(!'ㄱ'.is_syllable());

    assert!(Syllable::try_from_u32(below).is_err());
    assert!(Syllable::try_from_u32(first).is_ok());
    assert!(Syllable::try_from_u32(last).is_ok());
    assert!(Syllable::try_from_u32(above).is_err());
    assert_eq!(Syllable::try_from_char('가').unwrap().code_point(), 0xAC00);
}

#[test]
fn decompose_scenarios() {
    // "가" has no trailing consonant.
    let open_syllable = Syllable::try_from_u32(0xAC00).unwrap();
    assert_eq!(
        open_syllable.decompose(),
        (ChoseongCharacter::Giyeok, JungseongCharacter::Ah, None)
    );
    // "각" carries a trailing Giyeok.
    let closed_syllable = Syllable::try_from_u32(0xAC01).unwrap();
    assert_eq!(
        closed_syllable.decompose(),
        (
            ChoseongCharacter::Giyeok,
            JungseongCharacter::Ah,
            Some(JongseongCharacter::Giyeok)
        )
    );
}

#[test]
fn compose_scenarios() {
    let s = Syllable::compose(ChoseongCharacter::Giyeok, JungseongCharacter::Ah, None);
    assert_eq!(s.code_point(), 0xAC00);
    let s = Syllable::compose(
        ChoseongCharacter::Giyeok,
        JungseongCharacter::Ah,
        Some(JongseongCharacter::Giyeok),
    );
    assert_eq!(s.code_point(), 0xAC01);
    let s = Syllable::compose(
        ChoseongCharacter::Hieuh,
        JungseongCharacter::Yi,
        Some(JongseongCharacter::Hieuh),
    );
    assert_eq!(s.code_point(), 0xD7A3);
}

#[test]
fn decompose_compose_round_trip_full_range() {
    for code in 0xAC00u32..=0xD7A3 {
        let syllable = Syllable::try_from_u32(code).unwrap();
        let (c, j, k) = syllable.decompose();
        let again = Syllable::compose(c, j, k);
        assert_eq!(again.code_point(), code);
    }
}

#[test]
fn syllable_embedding_full_range() {
    for code in 0xAC00u32..=0xD7A3 {
        assert!(code.has_choseong());
        assert!(!code.is_choseong());
    }
    // One closed and one open syllable, checked across all three kinds.
    let closed: u32 = 0xAC01;
    assert!(closed.has_jungseong() && closed.has_jongseong());
    let open: u32 = 0xAC00;
    assert!(open.has_jungseong() && !open.has_jongseong());
}

#[test]
fn decompose_sequence_closed_syllable() {
    let syllable = Syllable::try_from_u32(0xAC01).unwrap();

    let mut it = syllable.to_decompose();
    assert_eq!(
        it.next(),
        Some(CharacterType::Choseong(Choseong::Normal(
            ChoseongCharacter::Giyeok
        )))
    );
    assert_eq!(
        it.next(),
        Some(CharacterType::Jungseong(Jungseong::Normal(
            JungseongCharacter::Ah
        )))
    );
    assert_eq!(
        it.next(),
        Some(CharacterType::Jongseong(Jongseong::Normal(
            JongseongCharacter::Giyeok
        )))
    );
    assert_eq!(it.next(), None);
    // The sequence is single-pass: once exhausted it stays exhausted.
    assert_eq!(it.next(), None);

    let mut chars = syllable.to_decompose_char();
    assert_eq!(chars.next(), Some('\u{1100}'));
    assert_eq!(chars.next(), Some('\u{1161}'));
    assert_eq!(chars.next(), Some('\u{11A8}'));
    assert_eq!(chars.next(), None);

    let mut codes = syllable.to_decompose_u32();
    assert_eq!(codes.next(), Some(0x1100));
    assert_eq!(codes.next(), Some(0x1161));
    assert_eq!(codes.next(), Some(0x11A8));
    assert_eq!(codes.next(), None);
}

#[test]
fn decompose_sequence_open_syllable() {
    let syllable = Syllable::try_from_char('가').unwrap();
    let mut it = syllable.to_decompose();
    assert!(matches!(it.next(), Some(CharacterType::Choseong(_))));
    assert!(matches!(it.next(), Some(CharacterType::Jungseong(_))));
    assert_eq!(it.next(), None);

    let mut chars = syllable.to_decompose_char();
    assert_eq!(chars.next(), Some('ᄀ'));
    assert_eq!(chars.next(), Some('ᅡ'));
    assert_eq!(chars.next(), None);
}
