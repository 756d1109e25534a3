use hangeul::{Choseong, ChoseongCharacter, ChoseongInformation};

#[test]
fn is_choseong_with_u32() {
    let non_normal_start: u32 = 0x1099;
    let non_normal_end: u32 = 0x1113;
    let normal_list: [u32; 19] = [
        0x1100, 0x1101, 0x1102, 0x1103, 0x1104, 0x1105, 0x1106, 0x1107, 0x1108, 0x1109, 0x110A,
        0x110B, 0x110C, 0x110D, 0x110E, 0x110F, 0x1110, 0x1111, 0x1112,
    ];
    let non_compat_start: u32 = 0x3130;
    let non_compat_end: u32 = 0x314F;
    let compat_list: [u32; 19] = [
        0x3131, 0x3132, 0x3134, 0x3137, 0x3138, 0x3139, 0x3141, 0x3142, 0x3143, 0x3145, 0x3146,
        0x3147, 0x3148, 0x3149, 0x313A, 0x314B, 0x314C, 0x314D, 0x314E,
    ];

    assert_eq!(non_normal_start.is_choseong(), false);
    for choseong in normal_list.iter() {
        assert_eq!(choseong.is_choseong(), true);
    }
    assert_eq!(non_normal_end.is_choseong(), false);

    assert_eq!(non_compat_start.is_choseong(), false);
    for choseong in compat_list.iter() {
        assert_eq!(choseong.is_choseong(), true);
    }
    assert_eq!(non_compat_end.is_choseong(), false);
}

#[test]
fn is_choseong_with_char() {
    let non_normal_start: char = '\u{1099}';
    let non_normal_end: char = '\u{1113}';
    let normal_list: [char; 19] = [
        'ᄀ', 'ᄁ', 'ᄂ', 'ᄃ', 'ᄄ', 'ᄅ', 'ᄆ', 'ᄇ', 'ᄈ', 'ᄉ', 'ᄊ', 'ᄋ', 'ᄌ', 'ᄍ', 'ᄎ',
        'ᄏ', 'ᄐ', 'ᄑ', 'ᄒ',
    ];
    let non_compat_start: char = '\u{3130}';
    let non_compat_end: char = '\u{314F}';
    let compat_list: [char; 19] = [
        'ㄱ', 'ㄲ', 'ㄴ', 'ㄷ', 'ㄸ', 'ㄹ', 'ㅁ', 'ㅂ', 'ㅃ', 'ㅅ', 'ㅆ', 'ㅇ', 'ㅈ', 'ㅉ', 'ㄺ',
        'ㅋ', 'ㅌ', 'ㅍ', 'ㅎ',
    ];

    assert_eq!(non_normal_start.is_choseong(), false);
    for choseong in normal_list.iter() {
        assert_eq!(choseong.is_choseong(), true);
    }
    assert_eq!(non_normal_end.is_choseong(), false);

    assert_eq!(non_compat_start.is_choseong(), false);
    for choseong in compat_list.iter() {
        assert_eq!(choseong.is_choseong(), true);
    }
    assert_eq!(non_compat_end.is_choseong(), false);
}

#[test]
fn is_normal_choseong_with_u32() {
    let non_normal_start: u32 = 0x1099;
    let non_normal_end: u32 = 0x1113;
    let normal_list: [u32; 19] = [
        0x1100, 0x1101, 0x1102, 0x1103, 0x1104, 0x1105, 0x1106, 0x1107, 0x1108, 0x1109, 0x110A,
        0x110B, 0x110C, 0x110D, 0x110E, 0x110F, 0x1110, 0x1111, 0x1112,
    ];
    let non_compat_start: u32 = 0x3130;
    let non_compat_end: u32 = 0x314F;
    let compat_list: [u32; 19] = [
        0x3131, 0x3132, 0x3134, 0x3137, 0x3138, 0x3139, 0x3141, 0x3142, 0x3143, 0x3145, 0x3146,
        0x3147, 0x3148, 0x3149, 0x313A, 0x314B, 0x314C, 0x314D, 0x314E,
    ];

    assert_eq!(non_normal_start.is_normal_choseong(), false);
    for choseong in normal_list.iter() {
        assert_eq!(choseong.is_normal_choseong(), true);
    }
    assert_eq!(non_normal_end.is_normal_choseong(), false);

    assert_eq!(non_compat_start.is_normal_choseong(), false);
    for choseong in compat_list.iter() {
        assert_eq!(choseong.is_normal_choseong(), false);
    }
    assert_eq!(non_compat_end.is_normal_choseong(), false);
}

#[test]
fn is_normal_choseong_with_char() {
    let non_normal_start: char = '\u{1099}';
    let non_normal_end: char = '\u{1113}';
    let normal_list: [char; 19] = [
        'ᄀ', 'ᄁ', 'ᄂ', 'ᄃ', 'ᄄ', 'ᄅ', 'ᄆ', 'ᄇ', 'ᄈ', 'ᄉ', 'ᄊ', 'ᄋ', 'ᄌ', 'ᄍ', 'ᄎ',
        'ᄏ', 'ᄐ', 'ᄑ', 'ᄒ',
    ];
    let non_compat_start: char = '\u{3130}';
    let non_compat_end: char = '\u{314F}';
    let compat_list: [char; 19] = [
        'ㄱ', 'ㄲ', 'ㄴ', 'ㄷ', 'ㄸ', 'ㄹ', 'ㅁ', 'ㅂ', 'ㅃ', 'ㅅ', 'ㅆ', 'ㅇ', 'ㅈ', 'ㅉ', 'ㄺ',
        'ㅋ', 'ㅌ', 'ㅍ', 'ㅎ',
    ];

    assert_eq!(non_normal_start.is_normal_choseong(), false);
    for choseong in normal_list.iter() {
        assert_eq!(choseong.is_normal_choseong(), true);
    }
    assert_eq!(non_normal_end.is_normal_choseong(), false);

    assert_eq!(non_compat_start.is_normal_choseong(), false);
    for choseong in compat_list.iter() {
        assert_eq!(choseong.is_normal_choseong(), false);
    }
    assert_eq!(non_compat_end.is_normal_choseong(), false);
}

#[test]
fn is_compat_choseong_with_u32() {
    let non_normal_start: u32 = 0x1099;
    let non_normal_end: u32 = 0x1113;
    let normal_list: [u32; 19] = [
        0x1100, 0x1101, 0x1102, 0x1103, 0x1104, 0x1105, 0x1106, 0x1107, 0x1108, 0x1109, 0x110A,
        0x110B, 0x110C, 0x110D, 0x110E, 0x110F, 0x1110, 0x1111, 0x1112,
    ];
    let non_compat_start: u32 = 0x3130;
    let non_compat_end: u32 = 0x314F;
    let compat_list: [u32; 19] = [
        0x3131, 0x3132, 0x3134, 0x3137, 0x3138, 0x3139, 0x3141, 0x3142, 0x3143, 0x3145, 0x3146,
        0x3147, 0x3148, 0x3149, 0x313A, 0x314B, 0x314C, 0x314D, 0x314E,
    ];

    assert_eq!(non_normal_start.is_compat_choseong(), false);
    for choseong in normal_list.iter() {
        assert_eq!(choseong.is_compat_choseong(), false);
    }
    assert_eq!(non_normal_end.is_compat_choseong(), false);

    assert_eq!(non_compat_start.is_compat_choseong(), false);
    for choseong in compat_list.iter() {
        assert_eq!(choseong.is_compat_choseong(), true);
    }
    assert_eq!(non_compat_end.is_compat_choseong(), false);
}

#[test]
fn is_compat_choseong_with_char() {
    let non_normal_start: char = '\u{1099}';
    let non_normal_end: char = '\u{1113}';
    let normal_list: [char; 19] = [
        'ᄀ', 'ᄁ', 'ᄂ', 'ᄃ', 'ᄄ', 'ᄅ', 'ᄆ', 'ᄇ', 'ᄈ', 'ᄉ', 'ᄊ', 'ᄋ', 'ᄌ', 'ᄍ', 'ᄎ',
        'ᄏ', 'ᄐ', 'ᄑ', 'ᄒ',
    ];
    let non_compat_start: char = '\u{3130}';
    let non_compat_end: char = '\u{314F}';
    let compat_list: [char; 19] = [
        'ㄱ', 'ㄲ', 'ㄴ', 'ㄷ', 'ㄸ', 'ㄹ', 'ㅁ', 'ㅂ', 'ㅃ', 'ㅅ', 'ㅆ', 'ㅇ', 'ㅈ', 'ㅉ', 'ㄺ',
        'ㅋ', 'ㅌ', 'ㅍ', 'ㅎ',
    ];

    assert_eq!(non_normal_start.is_compat_choseong(), false);
    for choseong in normal_list.iter() {
        assert_eq!(choseong.is_compat_choseong(), false);
    }
    assert_eq!(non_normal_end.is_compat_choseong(), false);

    assert_eq!(non_compat_start.is_compat_choseong(), false);
    for choseong in compat_list.iter() {
        assert_eq!(choseong.is_compat_choseong(), true);
    }
    assert_eq!(non_compat_end.is_compat_choseong(), false);
}

#[test]
fn choseong_code_point_round_trip() {
    let normal_list: [u32; 19] = [
        0x1100, 0x1101, 0x1102, 0x1103, 0x1104, 0x1105, 0x1106, 0x1107, 0x1108, 0x1109, 0x110A,
        0x110B, 0x110C, 0x110D, 0x110E, 0x110F, 0x1110, 0x1111, 0x1112,
    ];
    let compat_list: [u32; 19] = [
        0x3131, 0x3132, 0x3134, 0x3137, 0x3138, 0x3139, 0x3141, 0x3142, 0x3143, 0x3145, 0x3146,
        0x3147, 0x3148, 0x3149, 0x313A, 0x314B, 0x314C, 0x314D, 0x314E,
    ];
    for code in normal_list.iter().chain(compat_list.iter()) {
        let value = Choseong::try_from_u32(*code).unwrap();
        assert_eq!(value.to_code_point(), *code);
        assert_eq!(value.to_char() as u32, *code);
        assert_eq!(Choseong::try_from_char(value.to_char()), Ok(value));
    }
}

#[test]
fn choseong_scenarios() {
    assert_eq!(
        Choseong::try_from_u32(0x1100),
        Ok(Choseong::Normal(ChoseongCharacter::Giyeok))
    );
    assert_eq!(
        Choseong::try_from_u32(0x3131),
        Ok(Choseong::Compat(ChoseongCharacter::Giyeok))
    );
    // The historical table encodes compatibility Chieut at 0x313A.
    assert_eq!(
        Choseong::try_from_u32(0x313A),
        Ok(Choseong::Compat(ChoseongCharacter::Chieut))
    );
    assert!(Choseong::try_from_u32(0x314A).is_err());

    // Picking the Normal representation of a phoneme read from the Compat
    // range yields the modern code point, not the compatibility one.
    let compat = Choseong::try_from_u32(0x3131).unwrap();
    assert_eq!(compat.character().to_normal().to_code_point(), 0x1100);
    assert_eq!(compat.character().to_compat().to_code_point(), 0x3131);

    // A full syllable is not itself a bare leading consonant.
    let syllable: u32 = 0xAC00;
    assert!(!syllable.is_choseong());
    assert!(syllable.has_choseong());
    assert!(syllable.has_normal_choseong());
    assert!(!syllable.has_compat_choseong());
}
