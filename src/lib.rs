//! Japanese character (kana and kanji) utilities.
//!
//! Classification of characters into Japanese scripts, and conversion of text
//! between Hiragana, Katakana and Romaji.
pub mod constants;
pub mod is;
pub mod kind;
pub mod laws;
pub mod ranges;
pub mod table;
pub mod to;
pub mod util;

pub use is::{
    is_hiragana, is_japanese_mark, is_japanese_punctuation, is_kana, is_kanji, is_katakana,
    is_letter,
};
pub use kind::{get_kind, CharKind};
pub use to::{to_hiragana, to_katakana, to_romaji};
