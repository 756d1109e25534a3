use vstd::prelude::*;

verus! {

/// First code point of the precomposed syllable block.
pub const HANGEUL_OFFSET: u32 = 0xAC00;

/// Last code point of the precomposed syllable block.
pub const HANGEUL_END: u32 = 0xD7A3;

/// Number of leading-consonant phonemes.
pub const CHOSEONG_COUNT: u32 = 19;

/// Number of vowel phonemes.
pub const JUNGSEONG_COUNT: u32 = 21;

/// Number of trailing-consonant slots, the empty slot included.
pub const JONGSEONG_COUNT: u32 = 28;

/// First code point of the modern leading-consonant range.
pub const CHOSEONG_START: u32 = 0x1100;

/// First code point of the modern vowel range.
pub const JUNGSEONG_START: u32 = 0x1161;

/// Base code point of the modern trailing-consonant range; it lies one below
/// the first trailing consonant, since index zero stands for the empty slot.
pub const JONGSEONG_START: u32 = 0x11A7;

} // verus!
