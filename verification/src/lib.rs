//! Classification and conversion of Korean Hangul code points: precomposed
//! syllable blocks, the modern jamo ranges of the three component kinds
//! (leading consonant, vowel, trailing consonant), and the legacy
//! compatibility jamo ranges. Composition and decomposition arithmetic and
//! every classification predicate carry verified contracts; the round-trip,
//! disjointness and embedding laws are stated as proof functions beside them.

pub mod characters;
pub mod choseong;
pub mod constants;
pub mod iterator;
pub mod jongseong;
pub mod jungseong;
pub mod syllable;

pub use characters::{
    CharacterInformation, ChoseongCharacter, CodePointValue, JongseongCharacter,
    JungseongCharacter, Unrecognized,
};
pub use choseong::{Choseong, ChoseongInformation};
pub use constants::{
    CHOSEONG_COUNT, CHOSEONG_START, HANGEUL_END, HANGEUL_OFFSET, JONGSEONG_COUNT, JONGSEONG_START,
    JUNGSEONG_COUNT, JUNGSEONG_START,
};
pub use iterator::{CharacterType, SyllableCharDecompose, SyllableDecompose, SyllableU32Decompose};
pub use jongseong::{Jongseong, JongseongInformation};
pub use jungseong::{Jungseong, JungseongInformation};
pub use syllable::{Syllable, SyllableInformation};
