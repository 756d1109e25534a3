use vstd::prelude::*;

use crate::choseong::{spec_choseong_code, Choseong};
use crate::jongseong::{spec_jongseong_code, Jongseong};
use crate::jungseong::{spec_jungseong_code, Jungseong};
use crate::syllable::{spec_decompose, Syllable};

verus! {

/// One component of a decomposed syllable, tagged with its kind.
#[derive(Clone, Copy, Debug, PartialEq, Eq, Structural)]
pub enum CharacterType {
    Choseong(Choseong),
    Jungseong(Jungseong),
    Jongseong(Jongseong),
}

/// The pending items of a slot: one while it is still to be handed out,
/// none afterwards or when the syllable has no such component.
pub open spec fn slot_seq<T>(o: Option<T>) -> Seq<T> {
    match o {
        Option::None => Seq::empty(),
        Option::Some(v) => seq![v],
    }
}

/// The components that a syllable decomposes to, as tagged values in their
/// modern-range form, in fixed order: leading consonant, vowel, trailing
/// consonant if present.
pub open spec fn spec_decompose_sequence(code: int) -> Seq<CharacterType> {
    let (c, j, k) = spec_decompose(code);
    seq![
        CharacterType::Choseong(Choseong::Normal(c)),
        CharacterType::Jungseong(Jungseong::Normal(j)),
    ] + (match k {
        Option::None => Seq::empty(),
        Option::Some(kc) => seq![CharacterType::Jongseong(Jongseong::Normal(kc))],
    })
}

/// The components that a syllable decomposes to, as modern-range characters,
/// in the same fixed order.
pub open spec fn spec_decompose_chars(code: int) -> Seq<char> {
    let (c, j, k) = spec_decompose(code);
    seq![
        spec_choseong_code(Choseong::Normal(c)) as char,
        spec_jungseong_code(Jungseong::Normal(j)) as char,
    ] + (match k {
        Option::None => Seq::empty(),
        Option::Some(kc) => seq![spec_jongseong_code(Jongseong::Normal(kc)) as char],
    })
}

/// The components that a syllable decomposes to, as modern-range code points,
/// in the same fixed order.
pub open spec fn spec_decompose_u32s(code: int) -> Seq<u32> {
    let (c, j, k) = spec_decompose(code);
    seq![
        spec_choseong_code(Choseong::Normal(c)) as u32,
        spec_jungseong_code(Jungseong::Normal(j)) as u32,
    ] + (match k {
        Option::None => Seq::empty(),
        Option::Some(kc) => seq![spec_jongseong_code(Jongseong::Normal(kc)) as u32],
    })
}

/// A single-pass source of the tagged components of one syllable.
pub struct SyllableDecompose {
    choseong: Option<CharacterType>,
    jungseong: Option<CharacterType>,
    jongseong: Option<CharacterType>,
}

impl SyllableDecompose {
    /// The components not yet handed out, in the order they will come.
    pub closed spec fn pending(&self) -> Seq<CharacterType> {
        slot_seq(self.choseong) + slot_seq(self.jungseong) + slot_seq(self.jongseong)
    }

    /// Hands out the next pending component; `None` once all are gone.
    pub fn next(&mut self) -> (r: Option<CharacterType>)
        ensures
            old(self).pending().len() == 0 ==> r is None && final(self).pending()
                == old(self).pending(),
            old(self).pending().len() > 0 ==> r == Some(old(self).pending()[0])
                && final(self).pending() == old(self).pending().drop_first(),
    {
        let r = if self.choseong.is_some() {
            let r = self.choseong;
            self.choseong = None;
            r
        } else if self.jungseong.is_some() {
            let r = self.jungseong;
            self.jungseong = None;
            r
        } else {
            let r = self.jongseong;
            self.jongseong = None;
            r
        };
        proof {
            if old(self).pending().len() > 0 {
                assert(self.pending() =~= old(self).pending().drop_first());
            } else {
                assert(self.pending() =~= old(self).pending());
            }
        }
        r
    }
}

/// A single-pass source of the characters of one syllable's components.
pub struct SyllableCharDecompose {
    choseong: Option<char>,
    jungseong: Option<char>,
    jongseong: Option<char>,
}

impl SyllableCharDecompose {
    /// The characters not yet handed out, in the order they will come.
    pub closed spec fn pending(&self) -> Seq<char> {
        slot_seq(self.choseong) + slot_seq(self.jungseong) + slot_seq(self.jongseong)
    }

    /// Hands out the next pending character; `None` once all are gone.
    pub fn next(&mut self) -> (r: Option<char>)
        ensures
            old(self).pending().len() == 0 ==> r is None && final(self).pending()
                == old(self).pending(),
            old(self).pending().len() > 0 ==> r == Some(old(self).pending()[0])
                && final(self).pending() == old(self).pending().drop_first(),
    {
        let r = if self.choseong.is_some() {
            let r = self.choseong;
            self.choseong = None;
            r
        } else if self.jungseong.is_some() {
            let r = self.jungseong;
            self.jungseong = None;
            r
        } else {
            let r = self.jongseong;
            self.jongseong = None;
            r
        };
        proof {
            if old(self).pending().len() > 0 {
                assert(self.pending() =~= old(self).pending().drop_first());
            } else {
                assert(self.pending() =~= old(self).pending());
            }
        }
        r
    }
}

/// A single-pass source of the code points of one syllable's components.
pub struct SyllableU32Decompose {
    choseong: Option<u32>,
    jungseong: Option<u32>,
    jongseong: Option<u32>,
}

impl SyllableU32Decompose {
    /// The code points not yet handed out, in the order they will come.
    pub closed spec fn pending(&self) -> Seq<u32> {
        slot_seq(self.choseong) + slot_seq(self.jungseong) + slot_seq(self.jongseong)
    }

    /// Hands out the next pending code point; `None` once all are gone.
    pub fn next(&mut self) -> (r: Option<u32>)
        ensures
            old(self).pending().len() == 0 ==> r is None && final(self).pending()
                == old(self).pending(),
            old(self).pending().len() > 0 ==> r == Some(old(self).pending()[0])
                && final(self).pending() == old(self).pending().drop_first(),
    {
        let r = if self.choseong.is_some() {
            let r = self.choseong;
            self.choseong = None;
            r
        } else if self.jungseong.is_some() {
            let r = self.jungseong;
            self.jungseong = None;
            r
        } else {
            let r = self.jongseong;
            self.jongseong = None;
            r
        };
        proof {
            if old(self).pending().len() > 0 {
                assert(self.pending() =~= old(self).pending().drop_first());
            } else {
                assert(self.pending() =~= old(self).pending());
            }
        }
        r
    }
}

impl Syllable {
    /// The components of the syllable as tagged modern-range values, handed
    /// out in fixed order: leading consonant, vowel, trailing consonant if
    /// present.
    pub fn to_decompose(&self) -> (it: SyllableDecompose)
        requires
            self.wf(),
        ensures
            it.pending() == spec_decompose_sequence(self.spec_code()),
    {
        let (c, j, k) = self.decompose();
        let it = SyllableDecompose {
            choseong: Some(CharacterType::Choseong(c.to_normal())),
            jungseong: Some(CharacterType::Jungseong(j.to_normal())),
            jongseong: match k {
                Option::None => None,
                Option::Some(kc) => Some(CharacterType::Jongseong(kc.to_normal())),
            },
        };
        proof {
            assert(it.pending() =~= spec_decompose_sequence(self.spec_code()));
        }
        it
    }

    /// The components of the syllable as modern-range characters, handed out
    /// in the same fixed order.
    pub fn to_decompose_char(&self) -> (it: SyllableCharDecompose)
        requires
            self.wf(),
        ensures
            it.pending() == spec_decompose_chars(self.spec_code()),
    {
        let (c, j, k) = self.decompose();
        let it = SyllableCharDecompose {
            choseong: Some(c.to_normal().to_char()),
            jungseong: Some(j.to_normal().to_char()),
            jongseong: match k {
                Option::None => None,
                Option::Some(kc) => Some(kc.to_normal().to_char()),
            },
        };
        proof {
            assert(it.pending() =~= spec_decompose_chars(self.spec_code()));
        }
        it
    }

    /// The components of the syllable as modern-range code points, handed out
    /// in the same fixed order.
    pub fn to_decompose_u32(&self) -> (it: SyllableU32Decompose)
        requires
            self.wf(),
        ensures
            it.pending() == spec_decompose_u32s(self.spec_code()),
    {
        let (c, j, k) = self.decompose();
        let it = SyllableU32Decompose {
            choseong: Some(c.to_normal().to_code_point()),
            jungseong: Some(j.to_normal().to_code_point()),
            jongseong: match k {
                Option::None => None,
                Option::Some(kc) => Some(kc.to_normal().to_code_point()),
            },
        };
        proof {
            assert(it.pending() =~= spec_decompose_u32s(self.spec_code()));
        }
        it
    }
}

} // verus!
