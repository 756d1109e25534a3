use vstd::prelude::*;

use crate::characters::{
    jungseong_index, CharacterInformation, JungseongCharacter, CodePointValue, Unrecognized,
};
use crate::constants::{
    JUNGSEONG_COUNT, JUNGSEONG_START, HANGEUL_OFFSET, JONGSEONG_COUNT,
};
use crate::syllable::{is_syllable_code, SyllableInformation};

verus! {

/// A vowel together with the Unicode range its code point belongs
/// to: `Normal` for the modern jamo range, `Compat` for the compatibility
/// jamo range. The tag changes the encoding, never the phoneme.
#[derive(Clone, Copy, Debug, PartialEq, Eq, Structural)]
pub enum Jungseong {
    Normal(JungseongCharacter),
    Compat(JungseongCharacter),
}

/// The modern-range code point of a vowel phoneme.
pub open spec fn normal_jungseong_code(c: JungseongCharacter) -> int {
    JUNGSEONG_START + jungseong_index(c)
}

/// The compatibility-range code point of a vowel phoneme.
/// The compatibility range of the vowels is contiguous and keeps the
/// phonetic order of the modern range.
pub open spec fn compat_jungseong_code(c: JungseongCharacter) -> int {
    match c {
        JungseongCharacter::Ah => 0x314F,
        JungseongCharacter::Ae => 0x3150,
        JungseongCharacter::Ya => 0x3151,
        JungseongCharacter::Yae => 0x3152,
        JungseongCharacter::Eo => 0x3153,
        JungseongCharacter::E => 0x3154,
        JungseongCharacter::Yeo => 0x3155,
        JungseongCharacter::Ye => 0x3156,
        JungseongCharacter::Oh => 0x3157,
        JungseongCharacter::Wa => 0x3158,
        JungseongCharacter::Wae => 0x3159,
        JungseongCharacter::Oe => 0x315A,
        JungseongCharacter::Yo => 0x315B,
        JungseongCharacter::Woo => 0x315C,
        JungseongCharacter::Weo => 0x315D,
        JungseongCharacter::We => 0x315E,
        JungseongCharacter::Wi => 0x315F,
        JungseongCharacter::Yu => 0x3160,
        JungseongCharacter::Eu => 0x3161,
        JungseongCharacter::Ui => 0x3162,
        JungseongCharacter::Yi => 0x3163,
    }
}

/// The code point of a tagged vowel, in the range its tag names.
pub open spec fn spec_jungseong_code(v: Jungseong) -> int {
    match v {
        Jungseong::Normal(c) => normal_jungseong_code(c),
        Jungseong::Compat(c) => compat_jungseong_code(c),
    }
}

/// Whether a code point is a modern-range vowel.
pub open spec fn is_normal_jungseong_code(code: int) -> bool {
    JUNGSEONG_START <= code < JUNGSEONG_START + JUNGSEONG_COUNT
}

/// Whether a code point is a compatibility-range vowel.
pub open spec fn is_compat_jungseong_code(code: int) -> bool {
    code == 0x314F || code == 0x3150 || code == 0x3151 || code == 0x3152 ||
        code == 0x3153 || code == 0x3154 || code == 0x3155 || code == 0x3156 ||
        code == 0x3157 || code == 0x3158 || code == 0x3159 || code == 0x315A ||
        code == 0x315B || code == 0x315C || code == 0x315D || code == 0x315E ||
        code == 0x315F || code == 0x3160 || code == 0x3161 || code == 0x3162 ||
        code == 0x3163
}

/// Whether a code point is a vowel in either range.
pub open spec fn is_jungseong_code(code: int) -> bool {
    is_normal_jungseong_code(code) || is_compat_jungseong_code(code)
}

/// A syllable code point is replaced by the modern-range code point of its
/// vowel; every other code point passes through unchanged.
pub open spec fn normalize_jungseong(code: int) -> int {
    if is_syllable_code(code) {
        ((code - HANGEUL_OFFSET) / (JONGSEONG_COUNT as int)) % (JUNGSEONG_COUNT as int) + JUNGSEONG_START
    } else {
        code
    }
}

fn to_code(code: u32) -> (r: u32)
    ensures
        r as int == normalize_jungseong(code as int),
{
    if code.is_syllable() {
        (code - HANGEUL_OFFSET) / JONGSEONG_COUNT % JUNGSEONG_COUNT + JUNGSEONG_START
    } else {
        code
    }
}

fn is_normal_jungseong_u32(code: u32) -> (r: bool)
    ensures
        r == is_normal_jungseong_code(code as int),
{
    JUNGSEONG_START <= code && code < JUNGSEONG_START + JUNGSEONG_COUNT
}

fn is_compat_jungseong_u32(code: u32) -> (r: bool)
    ensures
        r == is_compat_jungseong_code(code as int),
{
    code == 0x314F || code == 0x3150 || code == 0x3151 || code == 0x3152 ||
        code == 0x3153 || code == 0x3154 || code == 0x3155 || code == 0x3156 ||
        code == 0x3157 || code == 0x3158 || code == 0x3159 || code == 0x315A ||
        code == 0x315B || code == 0x315C || code == 0x315D || code == 0x315E ||
        code == 0x315F || code == 0x3160 || code == 0x3161 || code == 0x3162 ||
        code == 0x3163
}

fn is_jungseong_u32(code: u32) -> (r: bool)
    ensures
        r == is_jungseong_code(code as int),
{
    is_normal_jungseong_u32(code) || is_compat_jungseong_u32(code)
}

/// Classification of a raw value as a vowel: as one on its own
/// (`is_`), or as one embedded in a precomposed syllable (`has_`).
pub trait JungseongInformation: CodePointValue {
    /// True when the value is itself a vowel, in either range.
    fn is_jungseong(&self) -> (r: bool)
        ensures
            r == is_jungseong_code(self.code_value() as int),
    ;

    /// True when the value is a modern-range vowel.
    fn is_normal_jungseong(&self) -> (r: bool)
        ensures
            r == is_normal_jungseong_code(self.code_value() as int),
    ;

    /// True when the value is a compatibility-range vowel.
    fn is_compat_jungseong(&self) -> (r: bool)
        ensures
            r == is_compat_jungseong_code(self.code_value() as int),
    ;

    /// True when the value is a vowel, or a syllable holding one.
    fn has_jungseong(&self) -> (r: bool)
        ensures
            r == is_jungseong_code(normalize_jungseong(self.code_value() as int)),
    ;

    /// True when the value is a modern-range vowel, or a syllable
    /// holding one.
    fn has_normal_jungseong(&self) -> (r: bool)
        ensures
            r == is_normal_jungseong_code(normalize_jungseong(self.code_value() as int)),
    ;

    /// True when the value is a compatibility-range vowel, or a
    /// syllable holding one.
    fn has_compat_jungseong(&self) -> (r: bool)
        ensures
            r == is_compat_jungseong_code(normalize_jungseong(self.code_value() as int)),
    ;
}

impl JungseongInformation for u32 {
    fn is_jungseong(&self) -> (r: bool) {
        is_jungseong_u32(*self)
    }

    fn is_normal_jungseong(&self) -> (r: bool) {
        is_normal_jungseong_u32(*self)
    }

    fn is_compat_jungseong(&self) -> (r: bool) {
        is_compat_jungseong_u32(*self)
    }

    fn has_jungseong(&self) -> (r: bool) {
        is_jungseong_u32(to_code(*self))
    }

    fn has_normal_jungseong(&self) -> (r: bool) {
        is_normal_jungseong_u32(to_code(*self))
    }

    fn has_compat_jungseong(&self) -> (r: bool) {
        is_compat_jungseong_u32(to_code(*self))
    }
}

impl JungseongInformation for char {
    fn is_jungseong(&self) -> (r: bool) {
        (*self as u32).is_jungseong()
    }

    fn is_normal_jungseong(&self) -> (r: bool) {
        (*self as u32).is_normal_jungseong()
    }

    fn is_compat_jungseong(&self) -> (r: bool) {
        (*self as u32).is_compat_jungseong()
    }

    fn has_jungseong(&self) -> (r: bool) {
        (*self as u32).has_jungseong()
    }

    fn has_normal_jungseong(&self) -> (r: bool) {
        (*self as u32).has_normal_jungseong()
    }

    fn has_compat_jungseong(&self) -> (r: bool) {
        (*self as u32).has_compat_jungseong()
    }
}

impl JungseongCharacter {
    /// Wraps the phoneme as its modern-range form.
    pub fn to_normal(&self) -> (r: Jungseong)
        ensures
            r == Jungseong::Normal(*self),
    {
        Jungseong::Normal(*self)
    }

    /// Wraps the phoneme as its compatibility-range form.
    pub fn to_compat(&self) -> (r: Jungseong)
        ensures
            r == Jungseong::Compat(*self),
    {
        Jungseong::Compat(*self)
    }
}

impl Jungseong {
    /// The bare phoneme, with the range tag removed.
    pub open spec fn spec_character(&self) -> JungseongCharacter {
        match *self {
            Jungseong::Normal(c) => c,
            Jungseong::Compat(c) => c,
        }
    }

    /// The bare phoneme, with the range tag removed.
    pub fn character(&self) -> (c: JungseongCharacter)
        ensures
            c == self.spec_character(),
    {
        match *self {
            Jungseong::Normal(c) => c,
            Jungseong::Compat(c) => c,
        }
    }

    /// Reads a code point as a tagged vowel; exactly the code
    /// points of the two tables are accepted.
    pub fn try_from_u32(code: u32) -> (r: Result<Jungseong, Unrecognized>)
        ensures
            r is Ok <==> is_jungseong_code(code as int),
            r matches Ok(v) ==> spec_jungseong_code(v) == code as int,
    {
        match code {
            0x1161 => Ok(Jungseong::Normal(JungseongCharacter::Ah)),
            0x1162 => Ok(Jungseong::Normal(JungseongCharacter::Ae)),
            0x1163 => Ok(Jungseong::Normal(JungseongCharacter::Ya)),
            0x1164 => Ok(Jungseong::Normal(JungseongCharacter::Yae)),
            0x1165 => Ok(Jungseong::Normal(JungseongCharacter::Eo)),
            0x1166 => Ok(Jungseong::Normal(JungseongCharacter::E)),
            0x1167 => Ok(Jungseong::Normal(JungseongCharacter::Yeo)),
            0x1168 => Ok(Jungseong::Normal(JungseongCharacter::Ye)),
            0x1169 => Ok(Jungseong::Normal(JungseongCharacter::Oh)),
            0x116A => Ok(Jungseong::Normal(JungseongCharacter::Wa)),
            0x116B => Ok(Jungseong::Normal(JungseongCharacter::Wae)),
            0x116C => Ok(Jungseong::Normal(JungseongCharacter::Oe)),
            0x116D => Ok(Jungseong::Normal(JungseongCharacter::Yo)),
            0x116E => Ok(Jungseong::Normal(JungseongCharacter::Woo)),
            0x116F => Ok(Jungseong::Normal(JungseongCharacter::Weo)),
            0x1170 => Ok(Jungseong::Normal(JungseongCharacter::We)),
            0x1171 => Ok(Jungseong::Normal(JungseongCharacter::Wi)),
            0x1172 => Ok(Jungseong::Normal(JungseongCharacter::Yu)),
            0x1173 => Ok(Jungseong::Normal(JungseongCharacter::Eu)),
            0x1174 => Ok(Jungseong::Normal(JungseongCharacter::Ui)),
            0x1175 => Ok(Jungseong::Normal(JungseongCharacter::Yi)),
            0x314F => Ok(Jungseong::Compat(JungseongCharacter::Ah)),
            0x3150 => Ok(Jungseong::Compat(JungseongCharacter::Ae)),
            0x3151 => Ok(Jungseong::Compat(JungseongCharacter::Ya)),
            0x3152 => Ok(Jungseong::Compat(JungseongCharacter::Yae)),
            0x3153 => Ok(Jungseong::Compat(JungseongCharacter::Eo)),
            0x3154 => Ok(Jungseong::Compat(JungseongCharacter::E)),
            0x3155 => Ok(Jungseong::Compat(JungseongCharacter::Yeo)),
            0x3156 => Ok(Jungseong::Compat(JungseongCharacter::Ye)),
            0x3157 => Ok(Jungseong::Compat(JungseongCharacter::Oh)),
            0x3158 => Ok(Jungseong::Compat(JungseongCharacter::Wa)),
            0x3159 => Ok(Jungseong::Compat(JungseongCharacter::Wae)),
            0x315A => Ok(Jungseong::Compat(JungseongCharacter::Oe)),
            0x315B => Ok(Jungseong::Compat(JungseongCharacter::Yo)),
            0x315C => Ok(Jungseong::Compat(JungseongCharacter::Woo)),
            0x315D => Ok(Jungseong::Compat(JungseongCharacter::Weo)),
            0x315E => Ok(Jungseong::Compat(JungseongCharacter::We)),
            0x315F => Ok(Jungseong::Compat(JungseongCharacter::Wi)),
            0x3160 => Ok(Jungseong::Compat(JungseongCharacter::Yu)),
            0x3161 => Ok(Jungseong::Compat(JungseongCharacter::Eu)),
            0x3162 => Ok(Jungseong::Compat(JungseongCharacter::Ui)),
            0x3163 => Ok(Jungseong::Compat(JungseongCharacter::Yi)),
            _ => Err(Unrecognized),
        }
    }

    /// Reads a character as a tagged vowel.
    pub fn try_from_char(c: char) -> (r: Result<Jungseong, Unrecognized>)
        ensures
            r is Ok <==> is_jungseong_code((c as u32) as int),
            r matches Ok(v) ==> spec_jungseong_code(v) == (c as u32) as int,
    {
        Jungseong::try_from_u32(c as u32)
    }

    /// The code point of the value, in the range its tag names.
    pub fn to_code_point(&self) -> (r: u32)
        ensures
            r as int == spec_jungseong_code(*self),
    {
        match *self {
            Jungseong::Normal(c) => match c {
                JungseongCharacter::Ah => 0x1161,
                JungseongCharacter::Ae => 0x1162,
                JungseongCharacter::Ya => 0x1163,
                JungseongCharacter::Yae => 0x1164,
                JungseongCharacter::Eo => 0x1165,
                JungseongCharacter::E => 0x1166,
                JungseongCharacter::Yeo => 0x1167,
                JungseongCharacter::Ye => 0x1168,
                JungseongCharacter::Oh => 0x1169,
                JungseongCharacter::Wa => 0x116A,
                JungseongCharacter::Wae => 0x116B,
                JungseongCharacter::Oe => 0x116C,
                JungseongCharacter::Yo => 0x116D,
                JungseongCharacter::Woo => 0x116E,
                JungseongCharacter::Weo => 0x116F,
                JungseongCharacter::We => 0x1170,
                JungseongCharacter::Wi => 0x1171,
                JungseongCharacter::Yu => 0x1172,
                JungseongCharacter::Eu => 0x1173,
                JungseongCharacter::Ui => 0x1174,
                JungseongCharacter::Yi => 0x1175,
            },
            Jungseong::Compat(c) => match c {
                JungseongCharacter::Ah => 0x314F,
                JungseongCharacter::Ae => 0x3150,
                JungseongCharacter::Ya => 0x3151,
                JungseongCharacter::Yae => 0x3152,
                JungseongCharacter::Eo => 0x3153,
                JungseongCharacter::E => 0x3154,
                JungseongCharacter::Yeo => 0x3155,
                JungseongCharacter::Ye => 0x3156,
                JungseongCharacter::Oh => 0x3157,
                JungseongCharacter::Wa => 0x3158,
                JungseongCharacter::Wae => 0x3159,
                JungseongCharacter::Oe => 0x315A,
                JungseongCharacter::Yo => 0x315B,
                JungseongCharacter::Woo => 0x315C,
                JungseongCharacter::Weo => 0x315D,
                JungseongCharacter::We => 0x315E,
                JungseongCharacter::Wi => 0x315F,
                JungseongCharacter::Yu => 0x3160,
                JungseongCharacter::Eu => 0x3161,
                JungseongCharacter::Ui => 0x3162,
                JungseongCharacter::Yi => 0x3163,
            },
        }
    }

    /// The character of the value, in the range its tag names.
    pub fn to_char(&self) -> (r: char)
        ensures
            r as int == spec_jungseong_code(*self),
    {
        match *self {
            Jungseong::Normal(c) => match c {
                JungseongCharacter::Ah => '\u{1161}',
                JungseongCharacter::Ae => '\u{1162}',
                JungseongCharacter::Ya => '\u{1163}',
                JungseongCharacter::Yae => '\u{1164}',
                JungseongCharacter::Eo => '\u{1165}',
                JungseongCharacter::E => '\u{1166}',
                JungseongCharacter::Yeo => '\u{1167}',
                JungseongCharacter::Ye => '\u{1168}',
                JungseongCharacter::Oh => '\u{1169}',
                JungseongCharacter::Wa => '\u{116A}',
                JungseongCharacter::Wae => '\u{116B}',
                JungseongCharacter::Oe => '\u{116C}',
                JungseongCharacter::Yo => '\u{116D}',
                JungseongCharacter::Woo => '\u{116E}',
                JungseongCharacter::Weo => '\u{116F}',
                JungseongCharacter::We => '\u{1170}',
                JungseongCharacter::Wi => '\u{1171}',
                JungseongCharacter::Yu => '\u{1172}',
                JungseongCharacter::Eu => '\u{1173}',
                JungseongCharacter::Ui => '\u{1174}',
                JungseongCharacter::Yi => '\u{1175}',
            },
            Jungseong::Compat(c) => match c {
                JungseongCharacter::Ah => '\u{314F}',
                JungseongCharacter::Ae => '\u{3150}',
                JungseongCharacter::Ya => '\u{3151}',
                JungseongCharacter::Yae => '\u{3152}',
                JungseongCharacter::Eo => '\u{3153}',
                JungseongCharacter::E => '\u{3154}',
                JungseongCharacter::Yeo => '\u{3155}',
                JungseongCharacter::Ye => '\u{3156}',
                JungseongCharacter::Oh => '\u{3157}',
                JungseongCharacter::Wa => '\u{3158}',
                JungseongCharacter::Wae => '\u{3159}',
                JungseongCharacter::Oe => '\u{315A}',
                JungseongCharacter::Yo => '\u{315B}',
                JungseongCharacter::Woo => '\u{315C}',
                JungseongCharacter::Weo => '\u{315D}',
                JungseongCharacter::We => '\u{315E}',
                JungseongCharacter::Wi => '\u{315F}',
                JungseongCharacter::Yu => '\u{3160}',
                JungseongCharacter::Eu => '\u{3161}',
                JungseongCharacter::Ui => '\u{3162}',
                JungseongCharacter::Yi => '\u{3163}',
            },
        }
    }
}

impl CharacterInformation for Jungseong {
    open spec fn spec_is_jaeum(&self) -> bool {
        self.spec_character().spec_is_jaeum()
    }

    open spec fn spec_is_moeum(&self) -> bool {
        self.spec_character().spec_is_moeum()
    }

    open spec fn spec_composable(&self) -> int {
        jungseong_index(self.spec_character())
    }

    fn is_jaeum(&self) -> (r: bool) {
        self.character().is_jaeum()
    }

    fn is_moeum(&self) -> (r: bool) {
        self.character().is_moeum()
    }

    fn to_composable(&self) -> (r: u32) {
        self.character().to_composable()
    }
}

/// No code point is a tagged vowel in more than one way: the code
/// tables of the two ranges are injective and do not intersect.
pub proof fn lemma_jungseong_code_injective(a: Jungseong, b: Jungseong)
    requires
        spec_jungseong_code(a) == spec_jungseong_code(b),
    ensures
        a == b,
{
}

/// Law: the modern and compatibility ranges of the vowel kind are
/// disjoint; no code point is classified as both.
pub proof fn lemma_jungseong_forms_disjoint(code: int)
    ensures
        !(is_normal_jungseong_code(code) && is_compat_jungseong_code(code)),
{
}

/// Law: converting a tagged vowel to its code point and reading
/// that code point back yields the same value, whichever the tag; the code
/// point is recognized, is no syllable, and belongs to no other value.
pub proof fn lemma_jungseong_code_round_trip(v: Jungseong)
    ensures
        is_jungseong_code(spec_jungseong_code(v)),
        normalize_jungseong(spec_jungseong_code(v)) == spec_jungseong_code(v),
        forall|w: Jungseong| spec_jungseong_code(w) == spec_jungseong_code(v) ==> w == v,
{
    assert forall|w: Jungseong| spec_jungseong_code(w) == spec_jungseong_code(v) implies w == v by {
        lemma_jungseong_code_injective(w, v);
    }
}

/// Law: the code points just below and just above each recognized range are
/// recognized by no classification of this kind.
pub proof fn lemma_jungseong_boundary_exclusion()
    ensures
        !is_jungseong_code(0x1160),
        !is_jungseong_code(0x1176),
        !is_jungseong_code(0x314E),
        !is_jungseong_code(0x3164),
{
}

} // verus!
