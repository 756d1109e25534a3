use hangeul::{CharacterInformation, Jungseong, JungseongCharacter, JungseongInformation};

#[test]
fn is_jungseong_boundaries() {
    let below_normal: u32 = 0x1160;
    let above_normal: u32 = 0x1176;
    let below_compat: u32 = 0x314E;
    let above_compat: u32 = 0x3164;
    assert!(!below_normal.is_jungseong());
    assert!(!above_normal.is_jungseong());
    assert!(!below_compat.is_jungseong());
    assert!(!above_compat.is_jungseong());
    for code in 0x1161u32..0x1176 {
        assert!(code.is_jungseong());
        assert!(code.is_normal_jungseong());
        assert!(!code.is_compat_jungseong());
    }
    for code in 0x314Fu32..0x3164 {
        assert!(code.is_jungseong());
        assert!(code.is_compat_jungseong());
        assert!(!code.is_normal_jungseong());
    }
}

#[test]
fn jungseong_code_point_round_trip() {
    for code in (0x1161u32..0x1176).chain(0x314Fu32..0x3164) {
        let value = Jungseong::try_from_u32(code).unwrap();
        assert_eq!(value.to_code_point(), code);
        assert_eq!(value.to_char() as u32, code);
        assert_eq!(Jungseong::try_from_char(value.to_char()), Ok(value));
    }
}

#[test]
fn jungseong_scenarios() {
    assert_eq!(
        Jungseong::try_from_u32(0x1161),
        Ok(Jungseong::Normal(JungseongCharacter::Ah))
    );
    assert_eq!(
        Jungseong::try_from_char('ㅏ'),
        Ok(Jungseong::Compat(JungseongCharacter::Ah))
    );
    let compat = Jungseong::try_from_u32(0x314F).unwrap();
    assert_eq!(compat.character().to_normal().to_code_point(), 0x1161);

    let vowel = JungseongCharacter::Ah;
    assert!(!vowel.is_jaeum());
    assert!(vowel.is_moeum());
    assert_eq!(vowel.to_composable(), 0);
    assert_eq!(JungseongCharacter::Yi.to_composable(), 20);

    let syllable: char = '가';
    assert!(!syllable.is_jungseong());
    assert!(syllable.has_jungseong());
    assert!(syllable.has_normal_jungseong());
    assert!(!syllable.has_compat_jungseong());
}
