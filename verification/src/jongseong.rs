use vstd::prelude::*;

use crate::characters::{
    jongseong_index, CharacterInformation, JongseongCharacter, CodePointValue, Unrecognized,
};
use crate::constants::{
    JONGSEONG_COUNT, JONGSEONG_START, HANGEUL_OFFSET,
};
use crate::syllable::{is_syllable_code, SyllableInformation};

verus! {

/// A trailing consonant together with the Unicode range its code point belongs
/// to: `Normal` for the modern jamo range, `Compat` for the compatibility
/// jamo range. The tag changes the encoding, never the phoneme.
#[derive(Clone, Copy, Debug, PartialEq, Eq, Structural)]
pub enum Jongseong {
    Normal(JongseongCharacter),
    Compat(JongseongCharacter),
}

/// The modern-range code point of a trailing consonant phoneme.
pub open spec fn normal_jongseong_code(c: JongseongCharacter) -> int {
    JONGSEONG_START + jongseong_index(c)
}

/// The compatibility-range code point of a trailing consonant phoneme.
/// The compatibility table is the historical, irregular one: it skips
/// several slots of the block. It is fixed data, reproduced entry for entry.
pub open spec fn compat_jongseong_code(c: JongseongCharacter) -> int {
    match c {
        JongseongCharacter::Giyeok => 0x3131,
        JongseongCharacter::SsangGiyeok => 0x3132,
        JongseongCharacter::GiyeokSiot => 0x3133,
        JongseongCharacter::Nieun => 0x3134,
        JongseongCharacter::NieunJieut => 0x3135,
        JongseongCharacter::NieunHieuh => 0x3136,
        JongseongCharacter::Digeut => 0x3137,
        JongseongCharacter::Rieul => 0x3139,
        JongseongCharacter::RieulGiyeok => 0x313A,
        JongseongCharacter::RieulMieum => 0x313B,
        JongseongCharacter::RieulBieup => 0x313C,
        JongseongCharacter::RieulSiot => 0x313D,
        JongseongCharacter::RieulTieut => 0x313E,
        JongseongCharacter::RieulPieup => 0x313F,
        JongseongCharacter::RieulHieuh => 0x3140,
        JongseongCharacter::Mieum => 0x3141,
        JongseongCharacter::Bieup => 0x3142,
        JongseongCharacter::BieupSiot => 0x3144,
        JongseongCharacter::Siot => 0x3145,
        JongseongCharacter::SsangSiot => 0x3146,
        JongseongCharacter::Ieung => 0x3147,
        JongseongCharacter::Jieut => 0x3148,
        JongseongCharacter::Chieut => 0x314A,
        JongseongCharacter::Kiyeok => 0x314B,
        JongseongCharacter::Tieut => 0x314C,
        JongseongCharacter::Pieup => 0x314D,
        JongseongCharacter::Hieuh => 0x314E,
    }
}

/// The code point of a tagged trailing consonant, in the range its tag names.
pub open spec fn spec_jongseong_code(v: Jongseong) -> int {
    match v {
        Jongseong::Normal(c) => normal_jongseong_code(c),
        Jongseong::Compat(c) => compat_jongseong_code(c),
    }
}

/// Whether a code point is a modern-range trailing consonant.
pub open spec fn is_normal_jongseong_code(code: int) -> bool {
    JONGSEONG_START < code < JONGSEONG_START + JONGSEONG_COUNT
}

/// Whether a code point is a compatibility-range trailing consonant.
pub open spec fn is_compat_jongseong_code(code: int) -> bool {
    code == 0x3131 || code == 0x3132 || code == 0x3133 || code == 0x3134 ||
        code == 0x3135 || code == 0x3136 || code == 0x3137 || code == 0x3139 ||
        code == 0x313A || code == 0x313B || code == 0x313C || code == 0x313D ||
        code == 0x313E || code == 0x313F || code == 0x3140 || code == 0x3141 ||
        code == 0x3142 || code == 0x3144 || code == 0x3145 || code == 0x3146 ||
        code == 0x3147 || code == 0x3148 || code == 0x314A || code == 0x314B ||
        code == 0x314C || code == 0x314D || code == 0x314E
}

/// Whether a code point is a trailing consonant in either range.
pub open spec fn is_jongseong_code(code: int) -> bool {
    is_normal_jongseong_code(code) || is_compat_jongseong_code(code)
}

/// A syllable code point is replaced by the modern-range code point of its
/// trailing consonant; every other code point passes through unchanged.
pub open spec fn normalize_jongseong(code: int) -> int {
    if is_syllable_code(code) {
        (code - HANGEUL_OFFSET) % (JONGSEONG_COUNT as int) + JONGSEONG_START
    } else {
        code
    }
}

fn to_code(code: u32) -> (r: u32)
    ensures
        r as int == normalize_jongseong(code as int),
{
    if code.is_syllable() {
        (code - HANGEUL_OFFSET) % JONGSEONG_COUNT + JONGSEONG_START
    } else {
        code
    }
}

fn is_normal_jongseong_u32(code: u32) -> (r: bool)
    ensures
        r == is_normal_jongseong_code(code as int),
{
    JONGSEONG_START < code && code < JONGSEONG_START + JONGSEONG_COUNT
}

fn is_compat_jongseong_u32(code: u32) -> (r: bool)
    ensures
        r == is_compat_jongseong_code(code as int),
{
    code == 0x3131 || code == 0x3132 || code == 0x3133 || code == 0x3134 ||
        code == 0x3135 || code == 0x3136 || code == 0x3137 || code == 0x3139 ||
        code == 0x313A || code == 0x313B || code == 0x313C || code == 0x313D ||
        code == 0x313E || code == 0x313F || code == 0x3140 || code == 0x3141 ||
        code == 0x3142 || code == 0x3144 || code == 0x3145 || code == 0x3146 ||
        code == 0x3147 || code == 0x3148 || code == 0x314A || code == 0x314B ||
        code == 0x314C || code == 0x314D || code == 0x314E
}

fn is_jongseong_u32(code: u32) -> (r: bool)
    ensures
        r == is_jongseong_code(code as int),
{
    is_normal_jongseong_u32(code) || is_compat_jongseong_u32(code)
}

/// Classification of a raw value as a trailing consonant: as one on its own
/// (`is_`), or as one embedded in a precomposed syllable (`has_`).
pub trait JongseongInformation: CodePointValue {
    /// True when the value is itself a trailing consonant, in either range.
    fn is_jongseong(&self) -> (r: bool)
        ensures
            r == is_jongseong_code(self.code_value() as int),
    ;

    /// True when the value is a modern-range trailing consonant.
    fn is_normal_jongseong(&self) -> (r: bool)
        ensures
            r == is_normal_jongseong_code(self.code_value() as int),
    ;

    /// True when the value is a compatibility-range trailing consonant.
    fn is_compat_jongseong(&self) -> (r: bool)
        ensures
            r == is_compat_jongseong_code(self.code_value() as int),
    ;

    /// True when the value is a trailing consonant, or a syllable holding one.
    fn has_jongseong(&self) -> (r: bool)
        ensures
            r == is_jongseong_code(normalize_jongseong(self.code_value() as int)),
    ;

    /// True when the value is a modern-range trailing consonant, or a syllable
    /// holding one.
    fn has_normal_jongseong(&self) -> (r: bool)
        ensures
            r == is_normal_jongseong_code(normalize_jongseong(self.code_value() as int)),
    ;

    /// True when the value is a compatibility-range trailing consonant, or a
    /// syllable holding one.
    fn has_compat_jongseong(&self) -> (r: bool)
        ensures
            r == is_compat_jongseong_code(normalize_jongseong(self.code_value() as int)),
    ;
}

impl JongseongInformation for u32 {
    fn is_jongseong(&self) -> (r: bool) {
        is_jongseong_u32(*self)
    }

    fn is_normal_jongseong(&self) -> (r: bool) {
        is_normal_jongseong_u32(*self)
    }

    fn is_compat_jongseong(&self) -> (r: bool) {
        is_compat_jongseong_u32(*self)
    }

    fn has_jongseong(&self) -> (r: bool) {
        is_jongseong_u32(to_code(*self))
    }

    fn has_normal_jongseong(&self) -> (r: bool) {
        is_normal_jongseong_u32(to_code(*self))
    }

    fn has_compat_jongseong(&self) -> (r: bool) {
        is_compat_jongseong_u32(to_code(*self))
    }
}

impl JongseongInformation for char {
    fn is_jongseong(&self) -> (r: bool) {
        (*self as u32).is_jongseong()
    }

    fn is_normal_jongseong(&self) -> (r: bool) {
        (*self as u32).is_normal_jongseong()
    }

    fn is_compat_jongseong(&self) -> (r: bool) {
        (*self as u32).is_compat_jongseong()
    }

    fn has_jongseong(&self) -> (r: bool) {
        (*self as u32).has_jongseong()
    }

    fn has_normal_jongseong(&self) -> (r: bool) {
        (*self as u32).has_normal_jongseong()
    }

    fn has_compat_jongseong(&self) -> (r: bool) {
        (*self as u32).has_compat_jongseong()
    }
}

impl JongseongCharacter {
    /// Wraps the phoneme as its modern-range form.
    pub fn to_normal(&self) -> (r: Jongseong)
        ensures
            r == Jongseong::Normal(*self),
    {
        Jongseong::Normal(*self)
    }

    /// Wraps the phoneme as its compatibility-range form.
    pub fn to_compat(&self) -> (r: Jongseong)
        ensures
            r == Jongseong::Compat(*self),
    {
        Jongseong::Compat(*self)
    }
}

impl Jongseong {
    /// The bare phoneme, with the range tag removed.
    pub open spec fn spec_character(&self) -> JongseongCharacter {
        match *self {
            Jongseong::Normal(c) => c,
            Jongseong::Compat(c) => c,
        }
    }

    /// The bare phoneme, with the range tag removed.
    pub fn character(&self) -> (c: JongseongCharacter)
        ensures
            c == self.spec_character(),
    {
        match *self {
            Jongseong::Normal(c) => c,
            Jongseong::Compat(c) => c,
        }
    }

    /// Reads a code point as a tagged trailing consonant; exactly the code
    /// points of the two tables are accepted.
    pub fn try_from_u32(code: u32) -> (r: Result<Jongseong, Unrecognized>)
        ensures
            r is Ok <==> is_jongseong_code(code as int),
            r matches Ok(v) ==> spec_jongseong_code(v) == code as int,
    {
        match code {
            0x11A8 => Ok(Jongseong::Normal(JongseongCharacter::Giyeok)),
            0x11A9 => Ok(Jongseong::Normal(JongseongCharacter::SsangGiyeok)),
            0x11AA => Ok(Jongseong::Normal(JongseongCharacter::GiyeokSiot)),
            0x11AB => Ok(Jongseong::Normal(JongseongCharacter::Nieun)),
            0x11AC => Ok(Jongseong::Normal(JongseongCharacter::NieunJieut)),
            0x11AD => Ok(Jongseong::Normal(JongseongCharacter::NieunHieuh)),
            0x11AE => Ok(Jongseong::Normal(JongseongCharacter::Digeut)),
            0x11AF => Ok(Jongseong::Normal(JongseongCharacter::Rieul)),
            0x11B0 => Ok(Jongseong::Normal(JongseongCharacter::RieulGiyeok)),
            0x11B1 => Ok(Jongseong::Normal(JongseongCharacter::RieulMieum)),
            0x11B2 => Ok(Jongseong::Normal(JongseongCharacter::RieulBieup)),
            0x11B3 => Ok(Jongseong::Normal(JongseongCharacter::RieulSiot)),
            0x11B4 => Ok(Jongseong::Normal(JongseongCharacter::RieulTieut)),
            0x11B5 => Ok(Jongseong::Normal(JongseongCharacter::RieulPieup)),
            0x11B6 => Ok(Jongseong::Normal(JongseongCharacter::RieulHieuh)),
            0x11B7 => Ok(Jongseong::Normal(JongseongCharacter::Mieum)),
            0x11B8 => Ok(Jongseong::Normal(JongseongCharacter::Bieup)),
            0x11B9 => Ok(Jongseong::Normal(JongseongCharacter::BieupSiot)),
            0x11BA => Ok(Jongseong::Normal(JongseongCharacter::Siot)),
            0x11BB => Ok(Jongseong::Normal(JongseongCharacter::SsangSiot)),
            0x11BC => Ok(Jongseong::Normal(JongseongCharacter::Ieung)),
            0x11BD => Ok(Jongseong::Normal(JongseongCharacter::Jieut)),
            0x11BE => Ok(Jongseong::Normal(JongseongCharacter::Chieut)),
            0x11BF => Ok(Jongseong::Normal(JongseongCharacter::Kiyeok)),
            0x11C0 => Ok(Jongseong::Normal(JongseongCharacter::Tieut)),
            0x11C1 => Ok(Jongseong::Normal(JongseongCharacter::Pieup)),
            0x11C2 => Ok(Jongseong::Normal(JongseongCharacter::Hieuh)),
            0x3131 => Ok(Jongseong::Compat(JongseongCharacter::Giyeok)),
            0x3132 => Ok(Jongseong::Compat(JongseongCharacter::SsangGiyeok)),
            0x3133 => Ok(Jongseong::Compat(JongseongCharacter::GiyeokSiot)),
            0x3134 => Ok(Jongseong::Compat(JongseongCharacter::Nieun)),
            0x3135 => Ok(Jongseong::Compat(JongseongCharacter::NieunJieut)),
            0x3136 => Ok(Jongseong::Compat(JongseongCharacter::NieunHieuh)),
            0x3137 => Ok(Jongseong::Compat(JongseongCharacter::Digeut)),
            0x3139 => Ok(Jongseong::Compat(JongseongCharacter::Rieul)),
            0x313A => Ok(Jongseong::Compat(JongseongCharacter::RieulGiyeok)),
            0x313B => Ok(Jongseong::Compat(JongseongCharacter::RieulMieum)),
            0x313C => Ok(Jongseong::Compat(JongseongCharacter::RieulBieup)),
            0x313D => Ok(Jongseong::Compat(JongseongCharacter::RieulSiot)),
            0x313E => Ok(Jongseong::Compat(JongseongCharacter::RieulTieut)),
            0x313F => Ok(Jongseong::Compat(JongseongCharacter::RieulPieup)),
            0x3140 => Ok(Jongseong::Compat(JongseongCharacter::RieulHieuh)),
            0x3141 => Ok(Jongseong::Compat(JongseongCharacter::Mieum)),
            0x3142 => Ok(Jongseong::Compat(JongseongCharacter::Bieup)),
            0x3144 => Ok(Jongseong::Compat(JongseongCharacter::BieupSiot)),
            0x3145 => Ok(Jongseong::Compat(JongseongCharacter::Siot)),
            0x3146 => Ok(Jongseong::Compat(JongseongCharacter::SsangSiot)),
            0x3147 => Ok(Jongseong::Compat(JongseongCharacter::Ieung)),
            0x3148 => Ok(Jongseong::Compat(JongseongCharacter::Jieut)),
            0x314A => Ok(Jongseong::Compat(JongseongCharacter::Chieut)),
            0x314B => Ok(Jongseong::Compat(JongseongCharacter::Kiyeok)),
            0x314C => Ok(Jongseong::Compat(JongseongCharacter::Tieut)),
            0x314D => Ok(Jongseong::Compat(JongseongCharacter::Pieup)),
            0x314E => Ok(Jongseong::Compat(JongseongCharacter::Hieuh)),
            _ => Err(Unrecognized),
        }
    }

    /// Reads a character as a tagged trailing consonant.
    pub fn try_from_char(c: char) -> (r: Result<Jongseong, Unrecognized>)
        ensures
            r is Ok <==> is_jongseong_code((c as u32) as int),
            r matches Ok(v) ==> spec_jongseong_code(v) == (c as u32) as int,
    {
        Jongseong::try_from_u32(c as u32)
    }

    /// The code point of the value, in the range its tag names.
    pub fn to_code_point(&self) -> (r: u32)
        ensures
            r as int == spec_jongseong_code(*self),
    {
        match *self {
            Jongseong::Normal(c) => match c {
                JongseongCharacter::Giyeok => 0x11A8,
                JongseongCharacter::SsangGiyeok => 0x11A9,
                JongseongCharacter::GiyeokSiot => 0x11AA,
                JongseongCharacter::Nieun => 0x11AB,
                JongseongCharacter::NieunJieut => 0x11AC,
                JongseongCharacter::NieunHieuh => 0x11AD,
                JongseongCharacter::Digeut => 0x11AE,
                JongseongCharacter::Rieul => 0x11AF,
                JongseongCharacter::RieulGiyeok => 0x11B0,
                JongseongCharacter::RieulMieum => 0x11B1,
                JongseongCharacter::RieulBieup => 0x11B2,
                JongseongCharacter::RieulSiot => 0x11B3,
                JongseongCharacter::RieulTieut => 0x11B4,
                JongseongCharacter::RieulPieup => 0x11B5,
                JongseongCharacter::RieulHieuh => 0x11B6,
                JongseongCharacter::Mieum => 0x11B7,
                JongseongCharacter::Bieup => 0x11B8,
                JongseongCharacter::BieupSiot => 0x11B9,
                JongseongCharacter::Siot => 0x11BA,
                JongseongCharacter::SsangSiot => 0x11BB,
                JongseongCharacter::Ieung => 0x11BC,
                JongseongCharacter::Jieut => 0x11BD,
                JongseongCharacter::Chieut => 0x11BE,
                JongseongCharacter::Kiyeok => 0x11BF,
                JongseongCharacter::Tieut => 0x11C0,
                JongseongCharacter::Pieup => 0x11C1,
                JongseongCharacter::Hieuh => 0x11C2,
            },
            Jongseong::Compat(c) => match c {
                JongseongCharacter::Giyeok => 0x3131,
                JongseongCharacter::SsangGiyeok => 0x3132,
                JongseongCharacter::GiyeokSiot => 0x3133,
                JongseongCharacter::Nieun => 0x3134,
                JongseongCharacter::NieunJieut => 0x3135,
                JongseongCharacter::NieunHieuh => 0x3136,
                JongseongCharacter::Digeut => 0x3137,
                JongseongCharacter::Rieul => 0x3139,
                JongseongCharacter::RieulGiyeok => 0x313A,
                JongseongCharacter::RieulMieum => 0x313B,
                JongseongCharacter::RieulBieup => 0x313C,
                JongseongCharacter::RieulSiot => 0x313D,
                JongseongCharacter::RieulTieut => 0x313E,
                JongseongCharacter::RieulPieup => 0x313F,
                JongseongCharacter::RieulHieuh => 0x3140,
                JongseongCharacter::Mieum => 0x3141,
                JongseongCharacter::Bieup => 0x3142,
                JongseongCharacter::BieupSiot => 0x3144,
                JongseongCharacter::Siot => 0x3145,
                JongseongCharacter::SsangSiot => 0x3146,
                JongseongCharacter::Ieung => 0x3147,
                JongseongCharacter::Jieut => 0x3148,
                JongseongCharacter::Chieut => 0x314A,
                JongseongCharacter::Kiyeok => 0x314B,
                JongseongCharacter::Tieut => 0x314C,
                JongseongCharacter::Pieup => 0x314D,
                JongseongCharacter::Hieuh => 0x314E,
            },
        }
    }

    /// The character of the value, in the range its tag names.
    pub fn to_char(&self) -> (r: char)
        ensures
            r as int == spec_jongseong_code(*self),
    {
        match *self {
            Jongseong::Normal(c) => match c {
                JongseongCharacter::Giyeok => '\u{11A8}',
                JongseongCharacter::SsangGiyeok => '\u{11A9}',
                JongseongCharacter::GiyeokSiot => '\u{11AA}',
                JongseongCharacter::Nieun => '\u{11AB}',
                JongseongCharacter::NieunJieut => '\u{11AC}',
                JongseongCharacter::NieunHieuh => '\u{11AD}',
                JongseongCharacter::Digeut => '\u{11AE}',
                JongseongCharacter::Rieul => '\u{11AF}',
                JongseongCharacter::RieulGiyeok => '\u{11B0}',
                JongseongCharacter::RieulMieum => '\u{11B1}',
                JongseongCharacter::RieulBieup => '\u{11B2}',
                JongseongCharacter::RieulSiot => '\u{11B3}',
                JongseongCharacter::RieulTieut => '\u{11B4}',
                JongseongCharacter::RieulPieup => '\u{11B5}',
                JongseongCharacter::RieulHieuh => '\u{11B6}',
                JongseongCharacter::Mieum => '\u{11B7}',
                JongseongCharacter::Bieup => '\u{11B8}',
                JongseongCharacter::BieupSiot => '\u{11B9}',
                JongseongCharacter::Siot => '\u{11BA}',
                JongseongCharacter::SsangSiot => '\u{11BB}',
                JongseongCharacter::Ieung => '\u{11BC}',
                JongseongCharacter::Jieut => '\u{11BD}',
                JongseongCharacter::Chieut => '\u{11BE}',
                JongseongCharacter::Kiyeok => '\u{11BF}',
                JongseongCharacter::Tieut => '\u{11C0}',
                JongseongCharacter::Pieup => '\u{11C1}',
                JongseongCharacter::Hieuh => '\u{11C2}',
            },
            Jongseong::Compat(c) => match c {
                JongseongCharacter::Giyeok => '\u{3131}',
                JongseongCharacter::SsangGiyeok => '\u{3132}',
                JongseongCharacter::GiyeokSiot => '\u{3133}',
                JongseongCharacter::Nieun => '\u{3134}',
                JongseongCharacter::NieunJieut => '\u{3135}',
                JongseongCharacter::NieunHieuh => '\u{3136}',
                JongseongCharacter::Digeut => '\u{3137}',
                JongseongCharacter::Rieul => '\u{3139}',
                JongseongCharacter::RieulGiyeok => '\u{313A}',
                JongseongCharacter::RieulMieum => '\u{313B}',
                JongseongCharacter::RieulBieup => '\u{313C}',
                JongseongCharacter::RieulSiot => '\u{313D}',
                JongseongCharacter::RieulTieut => '\u{313E}',
                JongseongCharacter::RieulPieup => '\u{313F}',
                JongseongCharacter::RieulHieuh => '\u{3140}',
                JongseongCharacter::Mieum => '\u{3141}',
                JongseongCharacter::Bieup => '\u{3142}',
                JongseongCharacter::BieupSiot => '\u{3144}',
                JongseongCharacter::Siot => '\u{3145}',
                JongseongCharacter::SsangSiot => '\u{3146}',
                JongseongCharacter::Ieung => '\u{3147}',
                JongseongCharacter::Jieut => '\u{3148}',
                JongseongCharacter::Chieut => '\u{314A}',
                JongseongCharacter::Kiyeok => '\u{314B}',
                JongseongCharacter::Tieut => '\u{314C}',
                JongseongCharacter::Pieup => '\u{314D}',
                JongseongCharacter::Hieuh => '\u{314E}',
            },
        }
    }
}

impl CharacterInformation for Jongseong {
    open spec fn spec_is_jaeum(&self) -> bool {
        self.spec_character().spec_is_jaeum()
    }

    open spec fn spec_is_moeum(&self) -> bool {
        self.spec_character().spec_is_moeum()
    }

    open spec fn spec_composable(&self) -> int {
        jongseong_index(self.spec_character())
    }

    fn is_jaeum(&self) -> (r: bool) {
        self.character().is_jaeum()
    }

    fn is_moeum(&self) -> (r: bool) {
        self.character().is_moeum()
    }

    fn to_composable(&self) -> (r: u32) {
        self.character().to_composable()
    }
}

/// No code point is a tagged trailing consonant in more than one way: the code
/// tables of the two ranges are injective and do not intersect.
pub proof fn lemma_jongseong_code_injective(a: Jongseong, b: Jongseong)
    requires
        spec_jongseong_code(a) == spec_jongseong_code(b),
    ensures
        a == b,
{
}

/// Law: the modern and compatibility ranges of the trailing consonant kind are
/// disjoint; no code point is classified as both.
pub proof fn lemma_jongseong_forms_disjoint(code: int)
    ensures
        !(is_normal_jongseong_code(code) && is_compat_jongseong_code(code)),
{
}

/// Law: converting a tagged trailing consonant to its code point and reading
/// that code point back yields the same value, whichever the tag; the code
/// point is recognized, is no syllable, and belongs to no other value.
pub proof fn lemma_jongseong_code_round_trip(v: Jongseong)
    ensures
        is_jongseong_code(spec_jongseong_code(v)),
        normalize_jongseong(spec_jongseong_code(v)) == spec_jongseong_code(v),
        forall|w: Jongseong| spec_jongseong_code(w) == spec_jongseong_code(v) ==> w == v,
{
    assert forall|w: Jongseong| spec_jongseong_code(w) == spec_jongseong_code(v) implies w == v by {
        lemma_jongseong_code_injective(w, v);
    }
}

/// Law: the code points just below and just above each recognized range are
/// recognized by no classification of this kind.
pub proof fn lemma_jongseong_boundary_exclusion()
    ensures
        !is_jongseong_code(0x11A7),
        !is_jongseong_code(0x11C3),
        !is_jongseong_code(0x3130),
        !is_jongseong_code(0x314F),
{
}

} // verus!
