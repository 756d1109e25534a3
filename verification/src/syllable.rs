use vstd::prelude::*;

use crate::characters::{
    choseong_index, choseong_of_index, jongseong_index, jongseong_of_index, jungseong_index,
    jungseong_of_index, lemma_choseong_index_inverse, lemma_choseong_of_index_inverse,
    lemma_jongseong_index_inverse, lemma_jongseong_of_index_inverse, lemma_jungseong_index_inverse,
    lemma_jungseong_of_index_inverse, CharacterInformation, ChoseongCharacter, CodePointValue,
    JongseongCharacter, JungseongCharacter, Unrecognized,
};
use crate::choseong::{is_choseong_code, is_normal_choseong_code, normalize_choseong};
use crate::constants::{
    CHOSEONG_COUNT, HANGEUL_END, HANGEUL_OFFSET, JONGSEONG_COUNT, JUNGSEONG_COUNT,
};
use crate::jongseong::{is_jongseong_code, is_normal_jongseong_code, normalize_jongseong};
use crate::jungseong::{is_jungseong_code, is_normal_jungseong_code, normalize_jungseong};
use vstd::arithmetic::div_mod::{
    lemma_breakdown, lemma_fundamental_div_mod, lemma_fundamental_div_mod_converse,
};

verus! {

/// Whether a code point lies in the precomposed syllable block.
pub open spec fn is_syllable_code(code: int) -> bool {
    HANGEUL_OFFSET <= code <= HANGEUL_END
}

/// The syllable code point built from the composable indices of a leading
/// consonant, a vowel, and a trailing-consonant slot (zero when empty).
pub open spec fn syllable_code_of_indices(ci: int, ji: int, ki: int) -> int {
    HANGEUL_OFFSET + (ci * (JUNGSEONG_COUNT as int) + ji) * (JONGSEONG_COUNT as int) + ki
}

/// The composable index of the trailing-consonant slot: zero when empty.
pub open spec fn jongseong_opt_index(k: Option<JongseongCharacter>) -> int {
    match k {
        Option::None => 0,
        Option::Some(c) => jongseong_index(c),
    }
}

/// The syllable code point that a phoneme triple composes to.
pub open spec fn spec_compose(
    c: ChoseongCharacter,
    j: JungseongCharacter,
    k: Option<JongseongCharacter>,
) -> int {
    syllable_code_of_indices(choseong_index(c), jungseong_index(j), jongseong_opt_index(k))
}

/// The leading-consonant index embedded in a syllable code point.
pub open spec fn syllable_choseong_index(code: int) -> int {
    (code - HANGEUL_OFFSET) / ((JUNGSEONG_COUNT as int) * (JONGSEONG_COUNT as int))
}

/// The vowel index embedded in a syllable code point.
pub open spec fn syllable_jungseong_index(code: int) -> int {
    ((code - HANGEUL_OFFSET) / (JONGSEONG_COUNT as int)) % (JUNGSEONG_COUNT as int)
}

/// The trailing-consonant index embedded in a syllable code point; zero means
/// that the syllable has no trailing consonant.
pub open spec fn syllable_jongseong_index(code: int) -> int {
    (code - HANGEUL_OFFSET) % (JONGSEONG_COUNT as int)
}

/// The phoneme triple that a syllable code point decomposes to.
pub open spec fn spec_decompose(code: int) -> (
    ChoseongCharacter,
    JungseongCharacter,
    Option<JongseongCharacter>,
) {
    (
        choseong_of_index(syllable_choseong_index(code)),
        jungseong_of_index(syllable_jungseong_index(code)),
        if syllable_jongseong_index(code) == 0 {
            Option::<JongseongCharacter>::None
        } else {
            Option::Some(jongseong_of_index(syllable_jongseong_index(code)))
        },
    )
}

/// Classification of a raw value as a precomposed syllable.
pub trait SyllableInformation: CodePointValue {
    /// True when the value lies in the precomposed syllable block.
    fn is_syllable(&self) -> (r: bool)
        ensures
            r == is_syllable_code(self.code_value() as int),
    ;
}

impl SyllableInformation for u32 {
    fn is_syllable(&self) -> (r: bool) {
        HANGEUL_OFFSET <= *self && *self <= HANGEUL_END
    }
}

impl SyllableInformation for char {
    fn is_syllable(&self) -> (r: bool) {
        (*self as u32).is_syllable()
    }
}

/// A precomposed syllable: a code point in the syllable block, decomposable
/// into one leading consonant, one vowel, and an optional trailing consonant.
#[derive(Clone, Copy, Debug, PartialEq, Eq, Structural)]
pub struct Syllable {
    code: u32,
}

impl Syllable {
    /// The code point that the syllable stands for.
    pub closed spec fn spec_code(&self) -> int {
        self.code as int
    }

    /// Well-formedness: the code point lies in the syllable block. Both
    /// constructors establish it; `decompose` relies on it.
    pub open spec fn wf(&self) -> bool {
        is_syllable_code(self.spec_code())
    }

    /// The raw code point of the syllable.
    pub fn code_point(&self) -> (r: u32)
        ensures
            r as int == self.spec_code(),
    {
        self.code
    }

    /// Reads a code point as a syllable; exactly the code points of the
    /// syllable block are accepted.
    pub fn try_from_u32(code: u32) -> (r: Result<Syllable, Unrecognized>)
        ensures
            r is Ok <==> is_syllable_code(code as int),
            r matches Ok(s) ==> s.spec_code() == code as int && s.wf(),
    {
        if code.is_syllable() {
            Ok(Syllable { code })
        } else {
            Err(Unrecognized)
        }
    }

    /// Reads a character as a syllable; exactly the characters of the
    /// syllable block are accepted.
    pub fn try_from_char(c: char) -> (r: Result<Syllable, Unrecognized>)
        ensures
            r is Ok <==> is_syllable_code((c as u32) as int),
            r matches Ok(s) ==> s.spec_code() == (c as u32) as int && s.wf(),
    {
        Syllable::try_from_u32(c as u32)
    }

    /// Composes the three component phonemes into a precomposed syllable.
    /// Every triple of catalog phonemes composes to a well-formed syllable.
    pub fn compose(
        c: ChoseongCharacter,
        j: JungseongCharacter,
        k: Option<JongseongCharacter>,
    ) -> (s: Syllable)
        ensures
            s.spec_code() == spec_compose(c, j, k),
            s.wf(),
    {
        proof {
            lemma_choseong_index_inverse(c);
            lemma_jungseong_index_inverse(j);
            if let Option::Some(kc) = k {
                lemma_jongseong_index_inverse(kc);
            }
        }
        let ki: u32 = match k {
            Option::None => 0,
            Option::Some(kc) => kc.to_composable(),
        };
        let code = HANGEUL_OFFSET + (c.to_composable() * JUNGSEONG_COUNT + j.to_composable())
            * JONGSEONG_COUNT + ki;
        Syllable { code }
    }

    /// Recovers the component phonemes of the syllable; a zero trailing
    /// index decodes to an absent trailing consonant.
    pub fn decompose(&self) -> (t: (
        ChoseongCharacter,
        JungseongCharacter,
        Option<JongseongCharacter>,
    ))
        requires
            self.wf(),
        ensures
            t == spec_decompose(self.spec_code()),
    {
        let d = self.code - HANGEUL_OFFSET;
        let ci = d / (JUNGSEONG_COUNT * JONGSEONG_COUNT);
        let ji = (d / JONGSEONG_COUNT) % JUNGSEONG_COUNT;
        let ki = d % JONGSEONG_COUNT;
        proof {
            lemma_syllable_indices_in_range(self.spec_code());
        }
        let c = ChoseongCharacter::from_composable(ci);
        let j = JungseongCharacter::from_composable(ji);
        let k = if ki == 0 {
            Option::<JongseongCharacter>::None
        } else {
            Option::Some(JongseongCharacter::from_composable(ki))
        };
        (c, j, k)
    }
}

/// The indices read out of a syllable code point lie within the catalog
/// counts; the trailing index may also be zero, the empty slot.
pub proof fn lemma_syllable_indices_in_range(code: int)
    requires
        is_syllable_code(code),
    ensures
        0 <= syllable_choseong_index(code) < CHOSEONG_COUNT,
        0 <= syllable_jungseong_index(code) < JUNGSEONG_COUNT,
        0 <= syllable_jongseong_index(code) < JONGSEONG_COUNT,
{
    let d = code - HANGEUL_OFFSET;
    lemma_fundamental_div_mod(d, 588);
    lemma_fundamental_div_mod(d, 28);
    lemma_fundamental_div_mod(d / 28, 21);
}

/// Law: composing a phoneme triple and decomposing the result returns the
/// same triple, for every triple of catalog phonemes.
pub proof fn lemma_compose_then_decompose(
    c: ChoseongCharacter,
    j: JungseongCharacter,
    k: Option<JongseongCharacter>,
)
    ensures
        is_syllable_code(spec_compose(c, j, k)),
        spec_decompose(spec_compose(c, j, k)) == (c, j, k),
{
    lemma_choseong_index_inverse(c);
    lemma_jungseong_index_inverse(j);
    if let Option::Some(kc) = k {
        lemma_jongseong_index_inverse(kc);
    }
    let ci = choseong_index(c);
    let ji = jungseong_index(j);
    let ki = jongseong_opt_index(k);
    let code = spec_compose(c, j, k);
    let d = code - HANGEUL_OFFSET;
    assert(d == 588 * ci + 28 * ji + ki);
    lemma_fundamental_div_mod_converse(d, 28, 21 * ci + ji, ki);
    lemma_fundamental_div_mod_converse(21 * ci + ji, 21, ci, ji);
    lemma_fundamental_div_mod_converse(d, 588, ci, 28 * ji + ki);
}

/// Law: decomposing a syllable code point and composing the parts again
/// returns the same code point, for every code point of the syllable block.
pub proof fn lemma_decompose_then_compose(code: int)
    requires
        is_syllable_code(code),
    ensures
        ({
            let (c, j, k) = spec_decompose(code);
            spec_compose(c, j, k) == code
        }),
{
    let d = code - HANGEUL_OFFSET;
    lemma_syllable_indices_in_range(code);
    lemma_fundamental_div_mod(d, 588);
    lemma_breakdown(d, 28, 21);
    lemma_choseong_of_index_inverse(syllable_choseong_index(code));
    lemma_jungseong_of_index_inverse(syllable_jungseong_index(code));
    if syllable_jongseong_index(code) != 0 {
        lemma_jongseong_of_index_inverse(syllable_jongseong_index(code));
    }
}

/// Law: every code point of the syllable block embeds a modern-range leading
/// consonant and vowel, and a modern-range trailing consonant exactly when
/// its trailing index is not zero; yet the syllable code point itself is not
/// a component of any kind.
pub proof fn lemma_syllable_embedding(code: int)
    requires
        is_syllable_code(code),
    ensures
        !is_choseong_code(code),
        !is_jungseong_code(code),
        !is_jongseong_code(code),
        is_choseong_code(normalize_choseong(code)),
        is_normal_choseong_code(normalize_choseong(code)),
        is_jungseong_code(normalize_jungseong(code)),
        is_normal_jungseong_code(normalize_jungseong(code)),
        syllable_jongseong_index(code) != 0 ==> is_normal_jongseong_code(
            normalize_jongseong(code),
        ),
        syllable_jongseong_index(code) == 0 ==> !is_jongseong_code(normalize_jongseong(code)),
{
    lemma_syllable_indices_in_range(code);
}

} // verus!
