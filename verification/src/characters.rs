use vstd::prelude::*;

verus! {

/// A conversion that a raw code-point value could not be read as: the input
/// lies outside every recognized range of the requested kind.
#[derive(Clone, Copy, Debug, PartialEq, Eq, Structural)]
pub struct Unrecognized;

/// The Unicode scalar value that a classification subject carries; it lets
/// one numeric-domain contract serve both the `u32` and the `char` entry
/// points.
pub trait CodePointValue {
    spec fn code_value(&self) -> u32;
}

impl CodePointValue for u32 {
    open spec fn code_value(&self) -> u32 {
        *self
    }
}

impl CodePointValue for char {
    open spec fn code_value(&self) -> u32 {
        *self as u32
    }
}

/// What the catalog says of a phoneme: whether it is a consonant (jaeum) or a
/// vowel (moeum), and the index its kind contributes to syllable composition.
pub trait CharacterInformation {
    spec fn spec_is_jaeum(&self) -> bool;

    spec fn spec_is_moeum(&self) -> bool;

    spec fn spec_composable(&self) -> int;

    fn is_jaeum(&self) -> (r: bool)
        ensures
            r == self.spec_is_jaeum(),
    ;

    fn is_moeum(&self) -> (r: bool)
        ensures
            r == self.spec_is_moeum(),
    ;

    fn to_composable(&self) -> (r: u32)
        ensures
            r == self.spec_composable(),
    ;
}

/// The nineteen leading-consonant phonemes, in the order of their modern
/// Unicode range.
#[derive(Clone, Copy, Debug, PartialEq, Eq, Structural)]
pub enum ChoseongCharacter {
    Giyeok, SsangGiyeok, Nieun, Digeut, SsangDigeut, Rieul, Mieum, Bieup, SsangBieup, Siot,
    SsangSiot, Ieung, Jieut, SsangJieut, Chieut, Kiyeok, Tieut, Pieup, Hieuh,
}

/// The composable index of each phoneme: its offset within the counts that
/// the syllable arithmetic multiplies.
pub open spec fn choseong_index(c: ChoseongCharacter) -> int {
    match c {
        ChoseongCharacter::Giyeok => 0,
        ChoseongCharacter::SsangGiyeok => 1,
        ChoseongCharacter::Nieun => 2,
        ChoseongCharacter::Digeut => 3,
        ChoseongCharacter::SsangDigeut => 4,
        ChoseongCharacter::Rieul => 5,
        ChoseongCharacter::Mieum => 6,
        ChoseongCharacter::Bieup => 7,
        ChoseongCharacter::SsangBieup => 8,
        ChoseongCharacter::Siot => 9,
        ChoseongCharacter::SsangSiot => 10,
        ChoseongCharacter::Ieung => 11,
        ChoseongCharacter::Jieut => 12,
        ChoseongCharacter::SsangJieut => 13,
        ChoseongCharacter::Chieut => 14,
        ChoseongCharacter::Kiyeok => 15,
        ChoseongCharacter::Tieut => 16,
        ChoseongCharacter::Pieup => 17,
        ChoseongCharacter::Hieuh => 18,
    }
}

/// The phoneme at a composable index; indices outside the catalog fall back
/// to the last phoneme and never arise from a valid value.
pub open spec fn choseong_of_index(i: int) -> ChoseongCharacter {
    if i == 0 {
        ChoseongCharacter::Giyeok
    } else if i == 1 {
        ChoseongCharacter::SsangGiyeok
    } else if i == 2 {
        ChoseongCharacter::Nieun
    } else if i == 3 {
        ChoseongCharacter::Digeut
    } else if i == 4 {
        ChoseongCharacter::SsangDigeut
    } else if i == 5 {
        ChoseongCharacter::Rieul
    } else if i == 6 {
        ChoseongCharacter::Mieum
    } else if i == 7 {
        ChoseongCharacter::Bieup
    } else if i == 8 {
        ChoseongCharacter::SsangBieup
    } else if i == 9 {
        ChoseongCharacter::Siot
    } else if i == 10 {
        ChoseongCharacter::SsangSiot
    } else if i == 11 {
        ChoseongCharacter::Ieung
    } else if i == 12 {
        ChoseongCharacter::Jieut
    } else if i == 13 {
        ChoseongCharacter::SsangJieut
    } else if i == 14 {
        ChoseongCharacter::Chieut
    } else if i == 15 {
        ChoseongCharacter::Kiyeok
    } else if i == 16 {
        ChoseongCharacter::Tieut
    } else if i == 17 {
        ChoseongCharacter::Pieup
    } else {
        ChoseongCharacter::Hieuh
    }
}

impl ChoseongCharacter {
    /// The phoneme whose composable index is `value`.
    pub fn from_composable(value: u32) -> (c: ChoseongCharacter)
        requires
            0 <= value < 19,
        ensures
            c == choseong_of_index(value as int),
    {
        if value == 0 {
            ChoseongCharacter::Giyeok
        } else if value == 1 {
            ChoseongCharacter::SsangGiyeok
        } else if value == 2 {
            ChoseongCharacter::Nieun
        } else if value == 3 {
            ChoseongCharacter::Digeut
        } else if value == 4 {
            ChoseongCharacter::SsangDigeut
        } else if value == 5 {
            ChoseongCharacter::Rieul
        } else if value == 6 {
            ChoseongCharacter::Mieum
        } else if value == 7 {
            ChoseongCharacter::Bieup
        } else if value == 8 {
            ChoseongCharacter::SsangBieup
        } else if value == 9 {
            ChoseongCharacter::Siot
        } else if value == 10 {
            ChoseongCharacter::SsangSiot
        } else if value == 11 {
            ChoseongCharacter::Ieung
        } else if value == 12 {
            ChoseongCharacter::Jieut
        } else if value == 13 {
            ChoseongCharacter::SsangJieut
        } else if value == 14 {
            ChoseongCharacter::Chieut
        } else if value == 15 {
            ChoseongCharacter::Kiyeok
        } else if value == 16 {
            ChoseongCharacter::Tieut
        } else if value == 17 {
            ChoseongCharacter::Pieup
        } else {
            ChoseongCharacter::Hieuh
        }
    }
}

impl CharacterInformation for ChoseongCharacter {
    open spec fn spec_is_jaeum(&self) -> bool {
        true
    }

    open spec fn spec_is_moeum(&self) -> bool {
        false
    }

    open spec fn spec_composable(&self) -> int {
        choseong_index(*self)
    }

    fn is_jaeum(&self) -> (r: bool) {
        true
    }

    fn is_moeum(&self) -> (r: bool) {
        false
    }

    fn to_composable(&self) -> (r: u32) {
        match self {
            ChoseongCharacter::Giyeok => 0,
            ChoseongCharacter::SsangGiyeok => 1,
            ChoseongCharacter::Nieun => 2,
            ChoseongCharacter::Digeut => 3,
            ChoseongCharacter::SsangDigeut => 4,
            ChoseongCharacter::Rieul => 5,
            ChoseongCharacter::Mieum => 6,
            ChoseongCharacter::Bieup => 7,
            ChoseongCharacter::SsangBieup => 8,
            ChoseongCharacter::Siot => 9,
            ChoseongCharacter::SsangSiot => 10,
            ChoseongCharacter::Ieung => 11,
            ChoseongCharacter::Jieut => 12,
            ChoseongCharacter::SsangJieut => 13,
            ChoseongCharacter::Chieut => 14,
            ChoseongCharacter::Kiyeok => 15,
            ChoseongCharacter::Tieut => 16,
            ChoseongCharacter::Pieup => 17,
            ChoseongCharacter::Hieuh => 18,
        }
    }
}

/// Every phoneme sits at a composable index inside its kind's count, and is
/// the one phoneme found there.
pub proof fn lemma_choseong_index_inverse(c: ChoseongCharacter)
    ensures
        0 <= choseong_index(c) < 19,
        choseong_of_index(choseong_index(c)) == c,
{
}

/// Distinct phonemes of one kind have distinct composable indices.
pub proof fn lemma_choseong_of_index_inverse(i: int)
    requires
        0 <= i < 19,
    ensures
        choseong_index(choseong_of_index(i)) == i,
{
}

/// The twenty-one vowel phonemes, in the order of their modern Unicode
/// range.
#[derive(Clone, Copy, Debug, PartialEq, Eq, Structural)]
pub enum JungseongCharacter {
    Ah, Ae, Ya, Yae, Eo, E, Yeo, Ye, Oh, Wa, Wae, Oe, Yo, Woo, Weo, We, Wi, Yu, Eu, Ui, Yi,
}

/// The composable index of each phoneme: its offset within the counts that
/// the syllable arithmetic multiplies.
pub open spec fn jungseong_index(c: JungseongCharacter) -> int {
    match c {
        JungseongCharacter::Ah => 0,
        JungseongCharacter::Ae => 1,
        JungseongCharacter::Ya => 2,
        JungseongCharacter::Yae => 3,
        JungseongCharacter::Eo => 4,
        JungseongCharacter::E => 5,
        JungseongCharacter::Yeo => 6,
        JungseongCharacter::Ye => 7,
        JungseongCharacter::Oh => 8,
        JungseongCharacter::Wa => 9,
        JungseongCharacter::Wae => 10,
        JungseongCharacter::Oe => 11,
        JungseongCharacter::Yo => 12,
        JungseongCharacter::Woo => 13,
        JungseongCharacter::Weo => 14,
        JungseongCharacter::We => 15,
        JungseongCharacter::Wi => 16,
        JungseongCharacter::Yu => 17,
        JungseongCharacter::Eu => 18,
        JungseongCharacter::Ui => 19,
        JungseongCharacter::Yi => 20,
    }
}

/// The phoneme at a composable index; indices outside the catalog fall back
/// to the last phoneme and never arise from a valid value.
pub open spec fn jungseong_of_index(i: int) -> JungseongCharacter {
    if i == 0 {
        JungseongCharacter::Ah
    } else if i == 1 {
        JungseongCharacter::Ae
    } else if i == 2 {
        JungseongCharacter::Ya
    } else if i == 3 {
        JungseongCharacter::Yae
    } else if i == 4 {
        JungseongCharacter::Eo
    } else if i == 5 {
        JungseongCharacter::E
    } else if i == 6 {
        JungseongCharacter::Yeo
    } else if i == 7 {
        JungseongCharacter::Ye
    } else if i == 8 {
        JungseongCharacter::Oh
    } else if i == 9 {
        JungseongCharacter::Wa
    } else if i == 10 {
        JungseongCharacter::Wae
    } else if i == 11 {
        JungseongCharacter::Oe
    } else if i == 12 {
        JungseongCharacter::Yo
    } else if i == 13 {
        JungseongCharacter::Woo
    } else if i == 14 {
        JungseongCharacter::Weo
    } else if i == 15 {
        JungseongCharacter::We
    } else if i == 16 {
        JungseongCharacter::Wi
    } else if i == 17 {
        JungseongCharacter::Yu
    } else if i == 18 {
        JungseongCharacter::Eu
    } else if i == 19 {
        JungseongCharacter::Ui
    } else {
        JungseongCharacter::Yi
    }
}

impl JungseongCharacter {
    /// The phoneme whose composable index is `value`.
    pub fn from_composable(value: u32) -> (c: JungseongCharacter)
        requires
            0 <= value < 21,
        ensures
            c == jungseong_of_index(value as int),
    {
        if value == 0 {
            JungseongCharacter::Ah
        } else if value == 1 {
            JungseongCharacter::Ae
        } else if value == 2 {
            JungseongCharacter::Ya
        } else if value == 3 {
            JungseongCharacter::Yae
        } else if value == 4 {
            JungseongCharacter::Eo
        } else if value == 5 {
            JungseongCharacter::E
        } else if value == 6 {
            JungseongCharacter::Yeo
        } else if value == 7 {
            JungseongCharacter::Ye
        } else if value == 8 {
            JungseongCharacter::Oh
        } else if value == 9 {
            JungseongCharacter::Wa
        } else if value == 10 {
            JungseongCharacter::Wae
        } else if value == 11 {
            JungseongCharacter::Oe
        } else if value == 12 {
            JungseongCharacter::Yo
        } else if value == 13 {
            JungseongCharacter::Woo
        } else if value == 14 {
            JungseongCharacter::Weo
        } else if value == 15 {
            JungseongCharacter::We
        } else if value == 16 {
            JungseongCharacter::Wi
        } else if value == 17 {
            JungseongCharacter::Yu
        } else if value == 18 {
            JungseongCharacter::Eu
        } else if value == 19 {
            JungseongCharacter::Ui
        } else {
            JungseongCharacter::Yi
        }
    }
}

impl CharacterInformation for JungseongCharacter {
    open spec fn spec_is_jaeum(&self) -> bool {
        false
    }

    open spec fn spec_is_moeum(&self) -> bool {
        true
    }

    open spec fn spec_composable(&self) -> int {
        jungseong_index(*self)
    }

    fn is_jaeum(&self) -> (r: bool) {
        false
    }

    fn is_moeum(&self) -> (r: bool) {
        true
    }

    fn to_composable(&self) -> (r: u32) {
        match self {
            JungseongCharacter::Ah => 0,
            JungseongCharacter::Ae => 1,
            JungseongCharacter::Ya => 2,
            JungseongCharacter::Yae => 3,
            JungseongCharacter::Eo => 4,
            JungseongCharacter::E => 5,
            JungseongCharacter::Yeo => 6,
            JungseongCharacter::Ye => 7,
            JungseongCharacter::Oh => 8,
            JungseongCharacter::Wa => 9,
            JungseongCharacter::Wae => 10,
            JungseongCharacter::Oe => 11,
            JungseongCharacter::Yo => 12,
            JungseongCharacter::Woo => 13,
            JungseongCharacter::Weo => 14,
            JungseongCharacter::We => 15,
            JungseongCharacter::Wi => 16,
            JungseongCharacter::Yu => 17,
            JungseongCharacter::Eu => 18,
            JungseongCharacter::Ui => 19,
            JungseongCharacter::Yi => 20,
        }
    }
}

/// Every phoneme sits at a composable index inside its kind's count, and is
/// the one phoneme found there.
pub proof fn lemma_jungseong_index_inverse(c: JungseongCharacter)
    ensures
        0 <= jungseong_index(c) < 21,
        jungseong_of_index(jungseong_index(c)) == c,
{
}

/// Distinct phonemes of one kind have distinct composable indices.
pub proof fn lemma_jungseong_of_index_inverse(i: int)
    requires
        0 <= i < 21,
    ensures
        jungseong_index(jungseong_of_index(i)) == i,
{
}

/// The twenty-seven trailing-consonant phonemes, in the order of their
/// modern Unicode range; the empty slot is not a phoneme and is modelled as
/// `Option::None`.
#[derive(Clone, Copy, Debug, PartialEq, Eq, Structural)]
pub enum JongseongCharacter {
    Giyeok, SsangGiyeok, GiyeokSiot, Nieun, NieunJieut, NieunHieuh, Digeut, Rieul, RieulGiyeok,
    RieulMieum, RieulBieup, RieulSiot, RieulTieut, RieulPieup, RieulHieuh, Mieum, Bieup,
    BieupSiot, Siot, SsangSiot, Ieung, Jieut, Chieut, Kiyeok, Tieut, Pieup, Hieuh,
}

/// The composable index of each phoneme: its offset within the counts that
/// the syllable arithmetic multiplies.
pub open spec fn jongseong_index(c: JongseongCharacter) -> int {
    match c {
        JongseongCharacter::Giyeok => 1,
        JongseongCharacter::SsangGiyeok => 2,
        JongseongCharacter::GiyeokSiot => 3,
        JongseongCharacter::Nieun => 4,
        JongseongCharacter::NieunJieut => 5,
        JongseongCharacter::NieunHieuh => 6,
        JongseongCharacter::Digeut => 7,
        JongseongCharacter::Rieul => 8,
        JongseongCharacter::RieulGiyeok => 9,
        JongseongCharacter::RieulMieum => 10,
        JongseongCharacter::RieulBieup => 11,
        JongseongCharacter::RieulSiot => 12,
        JongseongCharacter::RieulTieut => 13,
        JongseongCharacter::RieulPieup => 14,
        JongseongCharacter::RieulHieuh => 15,
        JongseongCharacter::Mieum => 16,
        JongseongCharacter::Bieup => 17,
        JongseongCharacter::BieupSiot => 18,
        JongseongCharacter::Siot => 19,
        JongseongCharacter::SsangSiot => 20,
        JongseongCharacter::Ieung => 21,
        JongseongCharacter::Jieut => 22,
        JongseongCharacter::Chieut => 23,
        JongseongCharacter::Kiyeok => 24,
        JongseongCharacter::Tieut => 25,
        JongseongCharacter::Pieup => 26,
        JongseongCharacter::Hieuh => 27,
    }
}

/// The phoneme at a composable index; indices outside the catalog fall back
/// to the last phoneme and never arise from a valid value.
pub open spec fn jongseong_of_index(i: int) -> JongseongCharacter {
    if i == 1 {
        JongseongCharacter::Giyeok
    } else if i == 2 {
        JongseongCharacter::SsangGiyeok
    } else if i == 3 {
        JongseongCharacter::GiyeokSiot
    } else if i == 4 {
        JongseongCharacter::Nieun
    } else if i == 5 {
        JongseongCharacter::NieunJieut
    } else if i == 6 {
        JongseongCharacter::NieunHieuh
    } else if i == 7 {
        JongseongCharacter::Digeut
    } else if i == 8 {
        JongseongCharacter::Rieul
    } else if i == 9 {
        JongseongCharacter::RieulGiyeok
    } else if i == 10 {
        JongseongCharacter::RieulMieum
    } else if i == 11 {
        JongseongCharacter::RieulBieup
    } else if i == 12 {
        JongseongCharacter::RieulSiot
    } else if i == 13 {
        JongseongCharacter::RieulTieut
    } else if i == 14 {
        JongseongCharacter::RieulPieup
    } else if i == 15 {
        JongseongCharacter::RieulHieuh
    } else if i == 16 {
        JongseongCharacter::Mieum
    } else if i == 17 {
        JongseongCharacter::Bieup
    } else if i == 18 {
        JongseongCharacter::BieupSiot
    } else if i == 19 {
        JongseongCharacter::Siot
    } else if i == 20 {
        JongseongCharacter::SsangSiot
    } else if i == 21 {
        JongseongCharacter::Ieung
    } else if i == 22 {
        JongseongCharacter::Jieut
    } else if i == 23 {
        JongseongCharacter::Chieut
    } else if i == 24 {
        JongseongCharacter::Kiyeok
    } else if i == 25 {
        JongseongCharacter::Tieut
    } else if i == 26 {
        JongseongCharacter::Pieup
    } else {
        JongseongCharacter::Hieuh
    }
}

impl JongseongCharacter {
    /// The phoneme whose composable index is `value`.
    pub fn from_composable(value: u32) -> (c: JongseongCharacter)
        requires
            1 <= value < 28,
        ensures
            c == jongseong_of_index(value as int),
    {
        if value == 1 {
            JongseongCharacter::Giyeok
        } else if value == 2 {
            JongseongCharacter::SsangGiyeok
        } else if value == 3 {
            JongseongCharacter::GiyeokSiot
        } else if value == 4 {
            JongseongCharacter::Nieun
        } else if value == 5 {
            JongseongCharacter::NieunJieut
        } else if value == 6 {
            JongseongCharacter::NieunHieuh
        } else if value == 7 {
            JongseongCharacter::Digeut
        } else if value == 8 {
            JongseongCharacter::Rieul
        } else if value == 9 {
            JongseongCharacter::RieulGiyeok
        } else if value == 10 {
            JongseongCharacter::RieulMieum
        } else if value == 11 {
            JongseongCharacter::RieulBieup
        } else if value == 12 {
            JongseongCharacter::RieulSiot
        } else if value == 13 {
            JongseongCharacter::RieulTieut
        } else if value == 14 {
            JongseongCharacter::RieulPieup
        } else if value == 15 {
            JongseongCharacter::RieulHieuh
        } else if value == 16 {
            JongseongCharacter::Mieum
        } else if value == 17 {
            JongseongCharacter::Bieup
        } else if value == 18 {
            JongseongCharacter::BieupSiot
        } else if value == 19 {
            JongseongCharacter::Siot
        } else if value == 20 {
            JongseongCharacter::SsangSiot
        } else if value == 21 {
            JongseongCharacter::Ieung
        } else if value == 22 {
            JongseongCharacter::Jieut
        } else if value == 23 {
            JongseongCharacter::Chieut
        } else if value == 24 {
            JongseongCharacter::Kiyeok
        } else if value == 25 {
            JongseongCharacter::Tieut
        } else if value == 26 {
            JongseongCharacter::Pieup
        } else {
            JongseongCharacter::Hieuh
        }
    }
}

impl CharacterInformation for JongseongCharacter {
    open spec fn spec_is_jaeum(&self) -> bool {
        true
    }

    open spec fn spec_is_moeum(&self) -> bool {
        false
    }

    open spec fn spec_composable(&self) -> int {
        jongseong_index(*self)
    }

    fn is_jaeum(&self) -> (r: bool) {
        true
    }

    fn is_moeum(&self) -> (r: bool) {
        false
    }

    fn to_composable(&self) -> (r: u32) {
        match self {
            JongseongCharacter::Giyeok => 1,
            JongseongCharacter::SsangGiyeok => 2,
            JongseongCharacter::GiyeokSiot => 3,
            JongseongCharacter::Nieun => 4,
            JongseongCharacter::NieunJieut => 5,
            JongseongCharacter::NieunHieuh => 6,
            JongseongCharacter::Digeut => 7,
            JongseongCharacter::Rieul => 8,
            JongseongCharacter::RieulGiyeok => 9,
            JongseongCharacter::RieulMieum => 10,
            JongseongCharacter::RieulBieup => 11,
            JongseongCharacter::RieulSiot => 12,
            JongseongCharacter::RieulTieut => 13,
            JongseongCharacter::RieulPieup => 14,
            JongseongCharacter::RieulHieuh => 15,
            JongseongCharacter::Mieum => 16,
            JongseongCharacter::Bieup => 17,
            JongseongCharacter::BieupSiot => 18,
            JongseongCharacter::Siot => 19,
            JongseongCharacter::SsangSiot => 20,
            JongseongCharacter::Ieung => 21,
            JongseongCharacter::Jieut => 22,
            JongseongCharacter::Chieut => 23,
            JongseongCharacter::Kiyeok => 24,
            JongseongCharacter::Tieut => 25,
            JongseongCharacter::Pieup => 26,
            JongseongCharacter::Hieuh => 27,
        }
    }
}

/// Every phoneme sits at a composable index inside its kind's count, and is
/// the one phoneme found there.
pub proof fn lemma_jongseong_index_inverse(c: JongseongCharacter)
    ensures
        1 <= jongseong_index(c) < 28,
        jongseong_of_index(jongseong_index(c)) == c,
{
}

/// Distinct phonemes of one kind have distinct composable indices.
pub proof fn lemma_jongseong_of_index_inverse(i: int)
    requires
        1 <= i < 28,
    ensures
        jongseong_index(jongseong_of_index(i)) == i,
{
}

} // verus!
