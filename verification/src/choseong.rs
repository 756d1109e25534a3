use vstd::prelude::*;

use crate::characters::{
    choseong_index, CharacterInformation, ChoseongCharacter, CodePointValue, Unrecognized,
};
use crate::constants::{
    CHOSEONG_COUNT, CHOSEONG_START, HANGEUL_OFFSET, JONGSEONG_COUNT, JUNGSEONG_COUNT,
};
use crate::syllable::{is_syllable_code, SyllableInformation};

verus! {

/// A leading consonant together with the Unicode range its code point belongs
/// to: `Normal` for the modern jamo range, `Compat` for the compatibility
/// jamo range. The tag changes the encoding, never the phoneme.
#[derive(Clone, Copy, Debug, PartialEq, Eq, Structural)]
pub enum Choseong {
    Normal(ChoseongCharacter),
    Compat(ChoseongCharacter),
}

/// The modern-range code point of a leading consonant phoneme.
pub open spec fn normal_choseong_code(c: ChoseongCharacter) -> int {
    CHOSEONG_START + choseong_index(c)
}

/// The compatibility-range code point of a leading consonant phoneme.
/// The compatibility table is the historical, irregular one: it skips
/// several slots of the block and encodes Chieut at 0x313A, out of phonetic
/// order. It is fixed data, reproduced entry for entry.
pub open spec fn compat_choseong_code(c: ChoseongCharacter) -> int {
    match c {
        ChoseongCharacter::Giyeok => 0x3131,
        ChoseongCharacter::SsangGiyeok => 0x3132,
        ChoseongCharacter::Nieun => 0x3134,
        ChoseongCharacter::Digeut => 0x3137,
        ChoseongCharacter::SsangDigeut => 0x3138,
        ChoseongCharacter::Rieul => 0x3139,
        ChoseongCharacter::Mieum => 0x3141,
        ChoseongCharacter::Bieup => 0x3142,
        ChoseongCharacter::SsangBieup => 0x3143,
        ChoseongCharacter::Siot => 0x3145,
        ChoseongCharacter::SsangSiot => 0x3146,
        ChoseongCharacter::Ieung => 0x3147,
        ChoseongCharacter::Jieut => 0x3148,
        ChoseongCharacter::SsangJieut => 0x3149,
        ChoseongCharacter::Chieut => 0x313A,
        ChoseongCharacter::Kiyeok => 0x314B,
        ChoseongCharacter::Tieut => 0x314C,
        ChoseongCharacter::Pieup => 0x314D,
        ChoseongCharacter::Hieuh => 0x314E,
    }
}

/// The code point of a tagged leading consonant, in the range its tag names.
pub open spec fn spec_choseong_code(v: Choseong) -> int {
    match v {
        Choseong::Normal(c) => normal_choseong_code(c),
        Choseong::Compat(c) => compat_choseong_code(c),
    }
}

/// Whether a code point is a modern-range leading consonant.
pub open spec fn is_normal_choseong_code(code: int) -> bool {
    CHOSEONG_START <= code < CHOSEONG_START + CHOSEONG_COUNT
}

/// Whether a code point is a compatibility-range leading consonant.
pub open spec fn is_compat_choseong_code(code: int) -> bool {
    code == 0x3131 || code == 0x3132 || code == 0x3134 || code == 0x3137 ||
        code == 0x3138 || code == 0x3139 || code == 0x3141 || code == 0x3142 ||
        code == 0x3143 || code == 0x3145 || code == 0x3146 || code == 0x3147 ||
        code == 0x3148 || code == 0x3149 || code == 0x313A || code == 0x314B ||
        code == 0x314C || code == 0x314D || code == 0x314E
}

/// Whether a code point is a leading consonant in either range.
pub open spec fn is_choseong_code(code: int) -> bool {
    is_normal_choseong_code(code) || is_compat_choseong_code(code)
}

/// A syllable code point is replaced by the modern-range code point of its
/// leading consonant; every other code point passes through unchanged.
pub open spec fn normalize_choseong(code: int) -> int {
    if is_syllable_code(code) {
        (code - HANGEUL_OFFSET) / ((JUNGSEONG_COUNT as int) * (JONGSEONG_COUNT as int)) + CHOSEONG_START
    } else {
        code
    }
}

fn to_code(code: u32) -> (r: u32)
    ensures
        r as int == normalize_choseong(code as int),
{
    if code.is_syllable() {
        (code - HANGEUL_OFFSET) / (JUNGSEONG_COUNT * JONGSEONG_COUNT) + CHOSEONG_START
    } else {
        code
    }
}

fn is_normal_choseong_u32(code: u32) -> (r: bool)
    ensures
        r == is_normal_choseong_code(code as int),
{
    CHOSEONG_START <= code && code < CHOSEONG_START + CHOSEONG_COUNT
}

fn is_compat_choseong_u32(code: u32) -> (r: bool)
    ensures
        r == is_compat_choseong_code(code as int),
{
    code == 0x3131 || code == 0x3132 || code == 0x3134 || code == 0x3137 ||
        code == 0x3138 || code == 0x3139 || code == 0x3141 || code == 0x3142 ||
        code == 0x3143 || code == 0x3145 || code == 0x3146 || code == 0x3147 ||
        code == 0x3148 || code == 0x3149 || code == 0x313A || code == 0x314B ||
        code == 0x314C || code == 0x314D || code == 0x314E
}

fn is_choseong_u32(code: u32) -> (r: bool)
    ensures
        r == is_choseong_code(code as int),
{
    is_normal_choseong_u32(code) || is_compat_choseong_u32(code)
}

/// Classification of a raw value as a leading consonant: as one on its own
/// (`is_`), or as one embedded in a precomposed syllable (`has_`).
pub trait ChoseongInformation: CodePointValue {
    /// True when the value is itself a leading consonant, in either range.
    fn is_choseong(&self) -> (r: bool)
        ensures
            r == is_choseong_code(self.code_value() as int),
    ;

    /// True when the value is a modern-range leading consonant.
    fn is_normal_choseong(&self) -> (r: bool)
        ensures
            r == is_normal_choseong_code(self.code_value() as int),
    ;

    /// True when the value is a compatibility-range leading consonant.
    fn is_compat_choseong(&self) -> (r: bool)
        ensures
            r == is_compat_choseong_code(self.code_value() as int),
    ;

    /// True when the value is a leading consonant, or a syllable holding one.
    fn has_choseong(&self) -> (r: bool)
        ensures
            r == is_choseong_code(normalize_choseong(self.code_value() as int)),
    ;

    /// True when the value is a modern-range leading consonant, or a syllable
    /// holding one.
    fn has_normal_choseong(&self) -> (r: bool)
        ensures
            r == is_normal_choseong_code(normalize_choseong(self.code_value() as int)),
    ;

    /// True when the value is a compatibility-range leading consonant, or a
    /// syllable holding one.
    fn has_compat_choseong(&self) -> (r: bool)
        ensures
            r == is_compat_choseong_code(normalize_choseong(self.code_value() as int)),
    ;
}

impl ChoseongInformation for u32 {
    fn is_choseong(&self) -> (r: bool) {
        is_choseong_u32(*self)
    }

    fn is_normal_choseong(&self) -> (r: bool) {
        is_normal_choseong_u32(*self)
    }

    fn is_compat_choseong(&self) -> (r: bool) {
        is_compat_choseong_u32(*self)
    }

    fn has_choseong(&self) -> (r: bool) {
        is_choseong_u32(to_code(*self))
    }

    fn has_normal_choseong(&self) -> (r: bool) {
        is_normal_choseong_u32(to_code(*self))
    }

    fn has_compat_choseong(&self) -> (r: bool) {
        is_compat_choseong_u32(to_code(*self))
    }
}

impl ChoseongInformation for char {
    fn is_choseong(&self) -> (r: bool) {
        (*self as u32).is_choseong()
    }

    fn is_normal_choseong(&self) -> (r: bool) {
        (*self as u32).is_normal_choseong()
    }

    fn is_compat_choseong(&self) -> (r: bool) {
        (*self as u32).is_compat_choseong()
    }

    fn has_choseong(&self) -> (r: bool) {
        (*self as u32).has_choseong()
    }

    fn has_normal_choseong(&self) -> (r: bool) {
        (*self as u32).has_normal_choseong()
    }

    fn has_compat_choseong(&self) -> (r: bool) {
        (*self as u32).has_compat_choseong()
    }
}

impl ChoseongCharacter {
    /// Wraps the phoneme as its modern-range form.
    pub fn to_normal(&self) -> (r: Choseong)
        ensures
            r == Choseong::Normal(*self),
    {
        Choseong::Normal(*self)
    }

    /// Wraps the phoneme as its compatibility-range form.
    pub fn to_compat(&self) -> (r: Choseong)
        ensures
            r == Choseong::Compat(*self),
    {
        Choseong::Compat(*self)
    }
}

impl Choseong {
    /// The bare phoneme, with the range tag removed.
    pub open spec fn spec_character(&self) -> ChoseongCharacter {
        match *self {
            Choseong::Normal(c) => c,
            Choseong::Compat(c) => c,
        }
    }

    /// The bare phoneme, with the range tag removed.
    pub fn character(&self) -> (c: ChoseongCharacter)
        ensures
            c == self.spec_character(),
    {
        match *self {
            Choseong::Normal(c) => c,
            Choseong::Compat(c) => c,
        }
    }

    /// Reads a code point as a tagged leading consonant; exactly the code
    /// points of the two tables are accepted.
    pub fn try_from_u32(code: u32) -> (r: Result<Choseong, Unrecognized>)
        ensures
            r is Ok <==> is_choseong_code(code as int),
            r matches Ok(v) ==> spec_choseong_code(v) == code as int,
    {
        match code {
            0x1100 => Ok(Choseong::Normal(ChoseongCharacter::Giyeok)),
            0x1101 => Ok(Choseong::Normal(ChoseongCharacter::SsangGiyeok)),
            0x1102 => Ok(Choseong::Normal(ChoseongCharacter::Nieun)),
            0x1103 => Ok(Choseong::Normal(ChoseongCharacter::Digeut)),
            0x1104 => Ok(Choseong::Normal(ChoseongCharacter::SsangDigeut)),
            0x1105 => Ok(Choseong::Normal(ChoseongCharacter::Rieul)),
            0x1106 => Ok(Choseong::Normal(ChoseongCharacter::Mieum)),
            0x1107 => Ok(Choseong::Normal(ChoseongCharacter::Bieup)),
            0x1108 => Ok(Choseong::Normal(ChoseongCharacter::SsangBieup)),
            0x1109 => Ok(Choseong::Normal(ChoseongCharacter::Siot)),
            0x110A => Ok(Choseong::Normal(ChoseongCharacter::SsangSiot)),
            0x110B => Ok(Choseong::Normal(ChoseongCharacter::Ieung)),
            0x110C => Ok(Choseong::Normal(ChoseongCharacter::Jieut)),
            0x110D => Ok(Choseong::Normal(ChoseongCharacter::SsangJieut)),
            0x110E => Ok(Choseong::Normal(ChoseongCharacter::Chieut)),
            0x110F => Ok(Choseong::Normal(ChoseongCharacter::Kiyeok)),
            0x1110 => Ok(Choseong::Normal(ChoseongCharacter::Tieut)),
            0x1111 => Ok(Choseong::Normal(ChoseongCharacter::Pieup)),
            0x1112 => Ok(Choseong::Normal(ChoseongCharacter::Hieuh)),
            0x3131 => Ok(Choseong::Compat(ChoseongCharacter::Giyeok)),
            0x3132 => Ok(Choseong::Compat(ChoseongCharacter::SsangGiyeok)),
            0x3134 => Ok(Choseong::Compat(ChoseongCharacter::Nieun)),
            0x3137 => Ok(Choseong::Compat(ChoseongCharacter::Digeut)),
            0x3138 => Ok(Choseong::Compat(ChoseongCharacter::SsangDigeut)),
            0x3139 => Ok(Choseong::Compat(ChoseongCharacter::Rieul)),
            0x3141 => Ok(Choseong::Compat(ChoseongCharacter::Mieum)),
            0x3142 => Ok(Choseong::Compat(ChoseongCharacter::Bieup)),
            0x3143 => Ok(Choseong::Compat(ChoseongCharacter::SsangBieup)),
            0x3145 => Ok(Choseong::Compat(ChoseongCharacter::Siot)),
            0x3146 => Ok(Choseong::Compat(ChoseongCharacter::SsangSiot)),
            0x3147 => Ok(Choseong::Compat(ChoseongCharacter::Ieung)),
            0x3148 => Ok(Choseong::Compat(ChoseongCharacter::Jieut)),
            0x3149 => Ok(Choseong::Compat(ChoseongCharacter::SsangJieut)),
            0x313A => Ok(Choseong::Compat(ChoseongCharacter::Chieut)),
            0x314B => Ok(Choseong::Compat(ChoseongCharacter::Kiyeok)),
            0x314C => Ok(Choseong::Compat(ChoseongCharacter::Tieut)),
            0x314D => Ok(Choseong::Compat(ChoseongCharacter::Pieup)),
            0x314E => Ok(Choseong::Compat(ChoseongCharacter::Hieuh)),
            _ => Err(Unrecognized),
        }
    }

    /// Reads a character as a tagged leading consonant.
    pub fn try_from_char(c: char) -> (r: Result<Choseong, Unrecognized>)
        ensures
            r is Ok <==> is_choseong_code((c as u32) as int),
            r matches Ok(v) ==> spec_choseong_code(v) == (c as u32) as int,
    {
        Choseong::try_from_u32(c as u32)
    }

    /// The code point of the value, in the range its tag names.
    pub fn to_code_point(&self) -> (r: u32)
        ensures
            r as int == spec_choseong_code(*self),
    {
        match *self {
            Choseong::Normal(c) => match c {
                ChoseongCharacter::Giyeok => 0x1100,
                ChoseongCharacter::SsangGiyeok => 0x1101,
                ChoseongCharacter::Nieun => 0x1102,
                ChoseongCharacter::Digeut => 0x1103,
                ChoseongCharacter::SsangDigeut => 0x1104,
                ChoseongCharacter::Rieul => 0x1105,
                ChoseongCharacter::Mieum => 0x1106,
                ChoseongCharacter::Bieup => 0x1107,
                ChoseongCharacter::SsangBieup => 0x1108,
                ChoseongCharacter::Siot => 0x1109,
                ChoseongCharacter::SsangSiot => 0x110A,
                ChoseongCharacter::Ieung => 0x110B,
                ChoseongCharacter::Jieut => 0x110C,
                ChoseongCharacter::SsangJieut => 0x110D,
                ChoseongCharacter::Chieut => 0x110E,
                ChoseongCharacter::Kiyeok => 0x110F,
                ChoseongCharacter::Tieut => 0x1110,
                ChoseongCharacter::Pieup => 0x1111,
                ChoseongCharacter::Hieuh => 0x1112,
            },
            Choseong::Compat(c) => match c {
                ChoseongCharacter::Giyeok => 0x3131,
                ChoseongCharacter::SsangGiyeok => 0x3132,
                ChoseongCharacter::Nieun => 0x3134,
                ChoseongCharacter::Digeut => 0x3137,
                ChoseongCharacter::SsangDigeut => 0x3138,
                ChoseongCharacter::Rieul => 0x3139,
                ChoseongCharacter::Mieum => 0x3141,
                ChoseongCharacter::Bieup => 0x3142,
                ChoseongCharacter::SsangBieup => 0x3143,
                ChoseongCharacter::Siot => 0x3145,
                ChoseongCharacter::SsangSiot => 0x3146,
                ChoseongCharacter::Ieung => 0x3147,
                ChoseongCharacter::Jieut => 0x3148,
                ChoseongCharacter::SsangJieut => 0x3149,
                ChoseongCharacter::Chieut => 0x313A,
                ChoseongCharacter::Kiyeok => 0x314B,
                ChoseongCharacter::Tieut => 0x314C,
                ChoseongCharacter::Pieup => 0x314D,
                ChoseongCharacter::Hieuh => 0x314E,
            },
        }
    }

    /// The character of the value, in the range its tag names.
    pub fn to_char(&self) -> (r: char)
        ensures
            r as int == spec_choseong_code(*self),
    {
        match *self {
            Choseong::Normal(c) => match c {
                ChoseongCharacter::Giyeok => '\u{1100}',
                ChoseongCharacter::SsangGiyeok => '\u{1101}',
                ChoseongCharacter::Nieun => '\u{1102}',
                ChoseongCharacter::Digeut => '\u{1103}',
                ChoseongCharacter::SsangDigeut => '\u{1104}',
                ChoseongCharacter::Rieul => '\u{1105}',
                ChoseongCharacter::Mieum => '\u{1106}',
                ChoseongCharacter::Bieup => '\u{1107}',
                ChoseongCharacter::SsangBieup => '\u{1108}',
                ChoseongCharacter::Siot => '\u{1109}',
                ChoseongCharacter::SsangSiot => '\u{110A}',
                ChoseongCharacter::Ieung => '\u{110B}',
                ChoseongCharacter::Jieut => '\u{110C}',
                ChoseongCharacter::SsangJieut => '\u{110D}',
                ChoseongCharacter::Chieut => '\u{110E}',
                ChoseongCharacter::Kiyeok => '\u{110F}',
                ChoseongCharacter::Tieut => '\u{1110}',
                ChoseongCharacter::Pieup => '\u{1111}',
                ChoseongCharacter::Hieuh => '\u{1112}',
            },
            Choseong::Compat(c) => match c {
                ChoseongCharacter::Giyeok => '\u{3131}',
                ChoseongCharacter::SsangGiyeok => '\u{3132}',
                ChoseongCharacter::Nieun => '\u{3134}',
                ChoseongCharacter::Digeut => '\u{3137}',
                ChoseongCharacter::SsangDigeut => '\u{3138}',
                ChoseongCharacter::Rieul => '\u{3139}',
                ChoseongCharacter::Mieum => '\u{3141}',
                ChoseongCharacter::Bieup => '\u{3142}',
                ChoseongCharacter::SsangBieup => '\u{3143}',
                ChoseongCharacter::Siot => '\u{3145}',
                ChoseongCharacter::SsangSiot => '\u{3146}',
                ChoseongCharacter::Ieung => '\u{3147}',
                ChoseongCharacter::Jieut => '\u{3148}',
                ChoseongCharacter::SsangJieut => '\u{3149}',
                ChoseongCharacter::Chieut => '\u{313A}',
                ChoseongCharacter::Kiyeok => '\u{314B}',
                ChoseongCharacter::Tieut => '\u{314C}',
                ChoseongCharacter::Pieup => '\u{314D}',
                ChoseongCharacter::Hieuh => '\u{314E}',
            },
        }
    }
}

impl CharacterInformation for Choseong {
    open spec fn spec_is_jaeum(&self) -> bool {
        self.spec_character().spec_is_jaeum()
    }

    open spec fn spec_is_moeum(&self) -> bool {
        self.spec_character().spec_is_moeum()
    }

    open spec fn spec_composable(&self) -> int {
        choseong_index(self.spec_character())
    }

    fn is_jaeum(&self) -> (r: bool) {
        self.character().is_jaeum()
    }

    fn is_moeum(&self) -> (r: bool) {
        self.character().is_moeum()
    }

    fn to_composable(&self) -> (r: u32) {
        self.character().to_composable()
    }
}

/// No code point is a tagged leading consonant in more than one way: the code
/// tables of the two ranges are injective and do not intersect.
pub proof fn lemma_choseong_code_injective(a: Choseong, b: Choseong)
    requires
        spec_choseong_code(a) == spec_choseong_code(b),
    ensures
        a == b,
{
}

/// Law: the modern and compatibility ranges of the leading consonant kind are
/// disjoint; no code point is classified as both.
pub proof fn lemma_choseong_forms_disjoint(code: int)
    ensures
        !(is_normal_choseong_code(code) && is_compat_choseong_code(code)),
{
}

/// Law: converting a tagged leading consonant to its code point and reading
/// that code point back yields the same value, whichever the tag; the code
/// point is recognized, is no syllable, and belongs to no other value.
pub proof fn lemma_choseong_code_round_trip(v: Choseong)
    ensures
        is_choseong_code(spec_choseong_code(v)),
        normalize_choseong(spec_choseong_code(v)) == spec_choseong_code(v),
        forall|w: Choseong| spec_choseong_code(w) == spec_choseong_code(v) ==> w == v,
{
    assert forall|w: Choseong| spec_choseong_code(w) == spec_choseong_code(v) implies w == v by {
        lemma_choseong_code_injective(w, v);
    }
}

/// Law: the code points just below and just above each recognized range are
/// recognized by no classification of this kind.
pub proof fn lemma_choseong_boundary_exclusion()
    ensures
        !is_choseong_code(0x10FF),
        !is_choseong_code(0x1113),
        !is_choseong_code(0x3130),
        !is_choseong_code(0x314F),
{
}

} // verus!
