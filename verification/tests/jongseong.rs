use hangeul::{CharacterInformation, Jongseong, JongseongCharacter, JongseongInformation};

#[test]
fn is_jongseong_boundaries() {
    let below_normal: u32 = 0x11A7;
    let above_normal: u32 = 0x11C3;
    let below_compat: u32 = 0x3130;
    let above_compat: u32 = 0x314F;
    assert!(!below_normal.is_jongseong());
    assert!(!above_normal.is_jongseong());
    assert!(!below_compat.is_jongseong());
    assert!(!above_compat.is_jongseong());
    for code in 0x11A8u32..0x11C3 {
        assert!(code.is_jongseong());
        assert!(code.is_normal_jongseong());
        assert!(!code.is_compat_jongseong());
    }
    // The compatibility table skips the slots whose letters never close a
    // syllable: the doubled letters at 0x3138, 0x3143 and 0x3149.
    let compat_list: [u32; 27] = [
        0x3131, 0x3132, 0x3133, 0x3134, 0x3135, 0x3136, 0x3137, 0x3139, 0x313A, 0x313B, 0x313C,
        0x313D, 0x313E, 0x313F, 0x3140, 0x3141, 0x3142, 0x3144, 0x3145, 0x3146, 0x3147, 0x3148,
        0x314A, 0x314B, 0x314C, 0x314D, 0x314E,
    ];
    for code in compat_list.iter() {
        assert!(code.is_jongseong());
        assert!(code.is_compat_jongseong());
        assert!(!code.is_normal_jongseong());
    }
    let skipped: [u32; 3] = [0x3138, 0x3143, 0x3149];
    for code in skipped.iter() {
        assert!(!code.is_jongseong());
    }
}

#[test]
fn jongseong_code_point_round_trip() {
    let compat_list: [u32; 27] = [
        0x3131, 0x3132, 0x3133, 0x3134, 0x3135, 0x3136, 0x3137, 0x3139, 0x313A, 0x313B, 0x313C,
        0x313D, 0x313E, 0x313F, 0x3140, 0x3141, 0x3142, 0x3144, 0x3145, 0x3146, 0x3147, 0x3148,
        0x314A, 0x314B, 0x314C, 0x314D, 0x314E,
    ];
    for code in (0x11A8u32..0x11C3).chain(compat_list.iter().copied()) {
        let value = Jongseong::try_from_u32(code).unwrap();
        assert_eq!(value.to_code_point(), code);
        assert_eq!(value.to_char() as u32, code);
        assert_eq!(Jongseong::try_from_char(value.to_char()), Ok(value));
    }
}

#[test]
fn jongseong_scenarios() {
    assert_eq!(
        Jongseong::try_from_u32(0x11A8),
        Ok(Jongseong::Normal(JongseongCharacter::Giyeok))
    );
    assert_eq!(
        Jongseong::try_from_u32(0x313A),
        Ok(Jongseong::Compat(JongseongCharacter::RieulGiyeok))
    );
    let compat = Jongseong::try_from_u32(0x3131).unwrap();
    assert_eq!(compat.character().to_normal().to_code_point(), 0x11A8);

    let consonant = JongseongCharacter::Giyeok;
    assert!(consonant.is_jaeum());
    assert!(!consonant.is_moeum());
    assert_eq!(consonant.to_composable(), 1);
    assert_eq!(JongseongCharacter::Hieuh.to_composable(), 27);

    // A syllable with no trailing consonant embeds none; one with a trailing
    // consonant embeds a modern-range one.
    let open_syllable: u32 = 0xAC00;
    assert!(!open_syllable.has_jongseong());
    let closed_syllable: u32 = 0xAC01;
    assert!(closed_syllable.has_jongseong());
    assert!(closed_syllable.has_normal_jongseong());
    assert!(!closed_syllable.has_compat_jongseong());
    assert!(!closed_syllable.is_jongseong());
}
