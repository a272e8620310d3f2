//! Kind of japanese characters.
use vstd::prelude::*;
use crate::ranges::{
    ascii_punctuation, hiragana_letter, is_ascii_punctuation, is_hiragana_letter,
    is_japanese_mark_char, is_japanese_punctuation_char, is_japanese_symbol_char, is_kanji_char,
    is_katakana_half_letter, is_katakana_letter, is_prolonged_mark, is_roman_digit,
    is_roman_letter, is_roman_punctuation, is_romaji_char, japanese_mark_char,
    japanese_punctuation_char, japanese_symbol_char, kanji_char, katakana_half_letter,
    katakana_letter, prolonged_mark, roman_digit, roman_letter, roman_punctuation, romaji_char,
};

verus! {

/// Enumeration with character kinds.
#[derive(Copy, Clone, Debug, PartialEq, Eq, Structural)]
pub enum CharKind {
    /// Any character that is neither japanese nor romaji.
    Other,
    /// Full-width hiragana characters.
    ///
    /// Note that as opposed to `is_hiragana`, this does not include `ー`.
    Hiragana,
    /// Full-width katakana characters.
    ///
    /// Note that as opposed to `is_katakana`, this does not include `ー`.
    Katakana,
    /// Half width katakana characters.
    KatakanaHalfWidth,
    /// Kanji characters.
    Kanji,
    /// The prolonged sound mark characters (`ー` U+30FC and `ｰ` U+FF70 halfwidth).
    BarLine,
    /// Japanese punctuation marks, i.e. characters that split words and phrases.
    ///
    /// This includes U+3000 Ideographic Space. This does NOT include the
    /// prolonged sound mark (see `BarLine`).
    ///
    /// Examples of this are `、`, `。`, `・`, `〖`, `〗`, `「`, `」`.
    JapanesePunctuation,
    /// Japanese repetition and iteration marks. Those are usually modifiers
    /// that affect transliteration.
    ///
    /// Examples of this are `々`, `ヽ`, `ヾ`, `ゝ`, `ゞ`, `〱`, `〲`
    JapaneseMark,
    /// Japanese symbols that do not belong to a specific category.
    JapaneseSymbol,
    /// Full width roman digit from `０` to `９`.
    RomanDigit,
    /// Full width roman characters (`Ａ-Ｚ` and `ａ-ｚ`).
    RomanLetter,
    /// Full-width roman punctuation (e.g. `：`, `；`, `＜`, `＝`, `＞`).
    RomanPunctuation,
    /// ASCII punctuation characters, including spaces.
    PunctuationASCII,
    /// Letters from `A-Z` and digits `0-9`.
    Romaji,
}

/// The kind of `c`: the first of the sets below, in this order, that holds
/// it.
pub open spec fn kind_of(c: char) -> CharKind {
    if prolonged_mark(c) {
        CharKind::BarLine
    } else if hiragana_letter(c) {
        CharKind::Hiragana
    } else if katakana_letter(c) {
        CharKind::Katakana
    } else if katakana_half_letter(c) {
        CharKind::KatakanaHalfWidth
    } else if romaji_char(c) {
        CharKind::Romaji
    } else if kanji_char(c) {
        CharKind::Kanji
    } else if ascii_punctuation(c) {
        CharKind::PunctuationASCII
    } else if roman_digit(c) {
        CharKind::RomanDigit
    } else if roman_letter(c) {
        CharKind::RomanLetter
    } else if roman_punctuation(c) {
        CharKind::RomanPunctuation
    } else if japanese_punctuation_char(c) {
        CharKind::JapanesePunctuation
    } else if japanese_mark_char(c) {
        CharKind::JapaneseMark
    } else if japanese_symbol_char(c) {
        CharKind::JapaneseSymbol
    } else {
        CharKind::Other
    }
}

/// Returns the kind of the character.
pub fn get_kind(chr: char) -> (r: CharKind)
    ensures
        r == kind_of(chr),
{
    if is_prolonged_mark(chr) {
        CharKind::BarLine
    } else if is_hiragana_letter(chr) {
        CharKind::Hiragana
    } else if is_katakana_letter(chr) {
        CharKind::Katakana
    } else if is_katakana_half_letter(chr) {
        CharKind::KatakanaHalfWidth
    } else if is_romaji_char(chr) {
        CharKind::Romaji
    } else if is_kanji_char(chr) {
        CharKind::Kanji
    } else if is_ascii_punctuation(chr) {
        CharKind::PunctuationASCII
    } else if is_roman_digit(chr) {
        CharKind::RomanDigit
    } else if is_roman_letter(chr) {
        CharKind::RomanLetter
    } else if is_roman_punctuation(chr) {
        CharKind::RomanPunctuation
    } else if is_japanese_punctuation_char(chr) {
        CharKind::JapanesePunctuation
    } else if is_japanese_mark_char(chr) {
        CharKind::JapaneseMark
    } else if is_japanese_symbol_char(chr) {
        CharKind::JapaneseSymbol
    } else {
        CharKind::Other
    }
}

} // verus!
