//! Character test functions.
use vstd::prelude::*;
use crate::ranges::{
    hiragana_letter, is_hiragana_letter, is_japanese_mark_char, is_japanese_punctuation_char,
    is_kanji_char, is_katakana_half_letter, is_katakana_letter, is_prolonged_mark,
    japanese_mark_char, japanese_punctuation_char, kanji_char, katakana_half_letter,
    katakana_letter, prolonged_mark,
};

verus! {

/// Hiragana, Katakana (full or half width) or the prolonged sound mark.
pub open spec fn kana_char(c: char) -> bool {
    prolonged_mark(c) || hiragana_letter(c) || katakana_letter(c) || katakana_half_letter(c)
}

/// Returns true if the character is Hiragana letter.
///
/// Note that this excludes characters from the hiragana block such as the
/// combining diacritics and marks from U+3099 and U+309F.
pub fn is_hiragana(chr: char) -> (r: bool)
    ensures
        r == hiragana_letter(chr),
{
    is_hiragana_letter(chr)
}

/// Returns true if the character is a Katakana letter.
pub fn is_katakana(chr: char) -> (r: bool)
    ensures
        r == (katakana_letter(chr) || katakana_half_letter(chr)),
{
    is_katakana_letter(chr) || is_katakana_half_letter(chr)
}

/// Returns true if the character is a Kanji letter.
pub fn is_kanji(chr: char) -> (r: bool)
    ensures
        r == kanji_char(chr),
{
    is_kanji_char(chr)
}

/// Returns true if the character is hiragana, katakana or the prolonged sound
/// mark.
pub fn is_kana(chr: char) -> (r: bool)
    ensures
        r == kana_char(chr),
{
    is_prolonged_mark(chr) || is_hiragana_letter(chr) || is_katakana_letter(chr)
        || is_katakana_half_letter(chr)
}

/// Returns true if the character is hiragana, katakana, kanji or the prolonged
/// sound mark.
pub fn is_letter(chr: char) -> (r: bool)
    ensures
        r == (kana_char(chr) || kanji_char(chr)),
{
    is_kana(chr) || is_kanji(chr)
}

/// Returns true for Japanese word marks, including the prolonged sound mark.
pub fn is_japanese_mark(chr: char) -> (r: bool)
    ensures
        r == (prolonged_mark(chr) || japanese_mark_char(chr)),
{
    is_prolonged_mark(chr) || is_japanese_mark_char(chr)
}

/// Returns true if the character is a japanese-style punctuation.
pub fn is_japanese_punctuation(chr: char) -> (r: bool)
    ensures
        r == japanese_punctuation_char(chr),
{
    is_japanese_punctuation_char(chr)
}

} // verus!
