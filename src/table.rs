//! The two conversion tables: Romaji to kana, and kana to Romaji.
//!
//! Each table is written once over its base keys. The Romaji table also
//! answers for every upper/lower-case variant of a key, and the kana table for
//! the Katakana form of a Hiragana key: a lookup brings its key to the base
//! form first.
use vstd::prelude::*;
use crate::constants::{
    HIRAGANA_START, HIRAGANA_TO_KATAKANA_END, KATAKANA_START, KATAKANA_TO_HIRAGANA_END,
};
use crate::ranges::kanji_char;
use crate::util::{
    char_in_range, hira_to_kata, is_shiftable_hiragana, is_shiftable_katakana, kata_to_hira,
    katakana_to_hiragana, latin_lower, latin_to_lower, latin_upper, uncased,
};

verus! {

/// The view of an optional character vector.
pub open spec fn seq_opt(o: Option<Vec<char>>) -> Option<Seq<char>> {
    match o {
        Some(v) => Some(v@),
        None => None,
    }
}

/// Maximum character count for the keys of the Romaji table: the lookahead
/// that a conversion to kana must consider.
pub const TO_HIRAGANA_MAX_CHUNK: usize = 4;

/// Maximum character count for the keys of the kana table.
pub const TO_ROMAJI_MAX_CHUNK: usize = 3;

/// Romaji to kana: the entries with one-character lower-case keys.
#[verifier::opaque]
pub open spec fn romaji_kana1(a: char) -> Option<Seq<char>> {
    match a {
        '.' => Some(seq!['。']),
        ',' => Some(seq!['、']),
        ':' => Some(seq!['：']),
        '/' => Some(seq!['・']),
        '!' => Some(seq!['！']),
        '?' => Some(seq!['？']),
        '~' => Some(seq!['〜']),
        '-' => Some(seq!['ー']),
        '‘' => Some(seq!['「']),
        '’' => Some(seq!['」']),
        '“' => Some(seq!['『']),
        '”' => Some(seq!['』']),
        '[' => Some(seq!['［']),
        ']' => Some(seq!['］']),
        '(' => Some(seq!['（']),
        ')' => Some(seq!['）']),
        '{' => Some(seq!['｛']),
        '}' => Some(seq!['｝']),
        'a' => Some(seq!['あ']),
        'i' => Some(seq!['い']),
        'u' => Some(seq!['う']),
        'e' => Some(seq!['え']),
        'o' => Some(seq!['お']),
        'ヷ' => Some(seq!['ゔ', 'ぁ']),
        'ヸ' => Some(seq!['ゔ', 'ぃ']),
        'ヹ' => Some(seq!['ゔ', 'ぇ']),
        'ヺ' => Some(seq!['ゔ', 'ぉ']),
        'ヿ' => Some(seq!['こ', 'と']),
        'ゟ' => Some(seq!['よ', 'り']),
        'n' => Some(seq!['ん']),
        'ā' => Some(seq!['あ', 'ー']),
        'ī' => Some(seq!['い', 'ー']),
        'ū' => Some(seq!['う', 'ー']),
        'ē' => Some(seq!['え', 'ー']),
        'ō' => Some(seq!['お', 'ー']),
        'â' => Some(seq!['あ', 'ー']),
        'î' => Some(seq!['い', 'ー']),
        'û' => Some(seq!['う', 'ー']),
        'ê' => Some(seq!['え', 'ー']),
        'ô' => Some(seq!['お', 'ー']),
        _ => None,
    }
}

fn find_romaji_kana1(a: char) -> (r: Option<Vec<char>>)
    ensures
        seq_opt(r) == romaji_kana1(a),
{
    proof {
        reveal(romaji_kana1);
    }
    match a {
        '.' => Some(vec!['。']),
        ',' => Some(vec!['、']),
        ':' => Some(vec!['：']),
        '/' => Some(vec!['・']),
        '!' => Some(vec!['！']),
        '?' => Some(vec!['？']),
        '~' => Some(vec!['〜']),
        '-' => Some(vec!['ー']),
        '‘' => Some(vec!['「']),
        '’' => Some(vec!['」']),
        '“' => Some(vec!['『']),
        '”' => Some(vec!['』']),
        '[' => Some(vec!['［']),
        ']' => Some(vec!['］']),
        '(' => Some(vec!['（']),
        ')' => Some(vec!['）']),
        '{' => Some(vec!['｛']),
        '}' => Some(vec!['｝']),
        'a' => Some(vec!['あ']),
        'i' => Some(vec!['い']),
        'u' => Some(vec!['う']),
        'e' => Some(vec!['え']),
        'o' => Some(vec!['お']),
        'ヷ' => Some(vec!['ゔ', 'ぁ']),
        'ヸ' => Some(vec!['ゔ', 'ぃ']),
        'ヹ' => Some(vec!['ゔ', 'ぇ']),
        'ヺ' => Some(vec!['ゔ', 'ぉ']),
        'ヿ' => Some(vec!['こ', 'と']),
        'ゟ' => Some(vec!['よ', 'り']),
        'n' => Some(vec!['ん']),
        'ā' => Some(vec!['あ', 'ー']),
        'ī' => Some(vec!['い', 'ー']),
        'ū' => Some(vec!['う', 'ー']),
        'ē' => Some(vec!['え', 'ー']),
        'ō' => Some(vec!['お', 'ー']),
        'â' => Some(vec!['あ', 'ー']),
        'î' => Some(vec!['い', 'ー']),
        'û' => Some(vec!['う', 'ー']),
        'ê' => Some(vec!['え', 'ー']),
        'ô' => Some(vec!['お', 'ー']),
        _ => None,
    }
}

/// Romaji to kana: the entries with two-character lower-case keys.
#[verifier::opaque]
pub open spec fn romaji_kana2(a: char, b: char) -> Option<Seq<char>> {
    match (a, b) {
        (':', ' ') => Some(seq!['：']),
        ('y', 'i') => Some(seq!['い']),
        ('w', 'u') => Some(seq!['う']),
        ('x', 'a') => Some(seq!['ぁ']),
        ('x', 'i') => Some(seq!['ぃ']),
        ('x', 'u') => Some(seq!['ぅ']),
        ('x', 'e') => Some(seq!['ぇ']),
        ('x', 'o') => Some(seq!['ぉ']),
        ('y', 'e') => Some(seq!['い', 'ぇ']),
        ('w', 'i') => Some(seq!['う', 'ぃ']),
        ('w', 'e') => Some(seq!['う', 'ぇ']),
        ('v', 'a') => Some(seq!['ゔ', 'ぁ']),
        ('v', 'i') => Some(seq!['ゔ', 'ぃ']),
        ('v', 'u') => Some(seq!['ゔ']),
        ('v', 'e') => Some(seq!['ゔ', 'ぇ']),
        ('v', 'o') => Some(seq!['ゔ', 'ぉ']),
        ('k', 'a') => Some(seq!['か']),
        ('k', 'i') => Some(seq!['き']),
        ('k', 'u') => Some(seq!['く']),
        ('k', 'e') => Some(seq!['け']),
        ('k', 'o') => Some(seq!['こ']),
        ('c', 'a') => Some(seq!['か']),
        ('c', 'i') => Some(seq!['き']),
        ('c', 'u') => Some(seq!['く']),
        ('c', 'e') => Some(seq!['け']),
        ('c', 'o') => Some(seq!['こ']),
        ('q', 'a') => Some(seq!['く', 'ぁ']),
        ('q', 'i') => Some(seq!['く', 'ぃ']),
        ('q', 'e') => Some(seq!['く', 'ぇ']),
        ('q', 'o') => Some(seq!['く', 'ぉ']),
        ('g', 'a') => Some(seq!['が']),
        ('g', 'i') => Some(seq!['ぎ']),
        ('g', 'u') => Some(seq!['ぐ']),
        ('g', 'e') => Some(seq!['げ']),
        ('g', 'o') => Some(seq!['ご']),
        ('s', 'a') => Some(seq!['さ']),
        ('s', 'i') => Some(seq!['し']),
        ('s', 'u') => Some(seq!['す']),
        ('s', 'e') => Some(seq!['せ']),
        ('s', 'o') => Some(seq!['そ']),
        ('z', 'a') => Some(seq!['ざ']),
        ('z', 'i') => Some(seq!['じ']),
        ('z', 'u') => Some(seq!['ず']),
        ('z', 'e') => Some(seq!['ぜ']),
        ('z', 'o') => Some(seq!['ぞ']),
        ('j', 'i') => Some(seq!['じ']),
        ('j', 'a') => Some(seq!['じ', 'ゃ']),
        ('j', 'u') => Some(seq!['じ', 'ゅ']),
        ('j', 'e') => Some(seq!['じ', 'ぇ']),
        ('j', 'o') => Some(seq!['じ', 'ょ']),
        ('t', 'a') => Some(seq!['た']),
        ('t', 'i') => Some(seq!['ち']),
        ('t', 'u') => Some(seq!['つ']),
        ('t', 'e') => Some(seq!['て']),
        ('t', 'o') => Some(seq!['と']),
        ('d', 'a') => Some(seq!['だ']),
        ('d', 'i') => Some(seq!['ぢ']),
        ('d', 'u') => Some(seq!['づ']),
        ('d', 'e') => Some(seq!['で']),
        ('d', 'o') => Some(seq!['ど']),
        ('n', 'a') => Some(seq!['な']),
        ('n', 'i') => Some(seq!['に']),
        ('n', 'u') => Some(seq!['ぬ']),
        ('n', 'e') => Some(seq!['ね']),
        ('n', 'o') => Some(seq!['の']),
        ('h', 'a') => Some(seq!['は']),
        ('h', 'i') => Some(seq!['ひ']),
        ('h', 'u') => Some(seq!['ふ']),
        ('h', 'e') => Some(seq!['へ']),
        ('h', 'o') => Some(seq!['ほ']),
        ('f', 'u') => Some(seq!['ふ']),
        ('f', 'a') => Some(seq!['ふ', 'ぁ']),
        ('f', 'i') => Some(seq!['ふ', 'ぃ']),
        ('f', 'e') => Some(seq!['ふ', 'ぇ']),
        ('f', 'o') => Some(seq!['ふ', 'ぉ']),
        ('b', 'a') => Some(seq!['ば']),
        ('b', 'i') => Some(seq!['び']),
        ('b', 'u') => Some(seq!['ぶ']),
        ('b', 'e') => Some(seq!['べ']),
        ('b', 'o') => Some(seq!['ぼ']),
        ('p', 'a') => Some(seq!['ぱ']),
        ('p', 'i') => Some(seq!['ぴ']),
        ('p', 'u') => Some(seq!['ぷ']),
        ('p', 'e') => Some(seq!['ぺ']),
        ('p', 'o') => Some(seq!['ぽ']),
        ('m', 'a') => Some(seq!['ま']),
        ('m', 'i') => Some(seq!['み']),
        ('m', 'u') => Some(seq!['む']),
        ('m', 'e') => Some(seq!['め']),
        ('m', 'o') => Some(seq!['も']),
        ('y', 'a') => Some(seq!['や']),
        ('y', 'u') => Some(seq!['ゆ']),
        ('y', 'o') => Some(seq!['よ']),
        ('r', 'a') => Some(seq!['ら']),
        ('r', 'i') => Some(seq!['り']),
        ('r', 'u') => Some(seq!['る']),
        ('r', 'e') => Some(seq!['れ']),
        ('r', 'o') => Some(seq!['ろ']),
        ('l', 'a') => Some(seq!['ら']),
        ('l', 'i') => Some(seq!['り']),
        ('l', 'u') => Some(seq!['る']),
        ('l', 'e') => Some(seq!['れ']),
        ('l', 'o') => Some(seq!['ろ']),
        ('w', 'a') => Some(seq!['わ']),
        ('w', 'o') => Some(seq!['を']),
        ('n', '\'') => Some(seq!['ん']),
        ('n', ' ') => Some(seq!['ん', ' ']),
        ('x', 'n') => Some(seq!['ん']),
        _ => None,
    }
}

fn find_romaji_kana2(a: char, b: char) -> (r: Option<Vec<char>>)
    ensures
        seq_opt(r) == romaji_kana2(a, b),
{
    proof {
        reveal(romaji_kana2);
    }
    match (a, b) {
        (':', ' ') => Some(vec!['：']),
        ('y', 'i') => Some(vec!['い']),
        ('w', 'u') => Some(vec!['う']),
        ('x', 'a') => Some(vec!['ぁ']),
        ('x', 'i') => Some(vec!['ぃ']),
        ('x', 'u') => Some(vec!['ぅ']),
        ('x', 'e') => Some(vec!['ぇ']),
        ('x', 'o') => Some(vec!['ぉ']),
        ('y', 'e') => Some(vec!['い', 'ぇ']),
        ('w', 'i') => Some(vec!['う', 'ぃ']),
        ('w', 'e') => Some(vec!['う', 'ぇ']),
        ('v', 'a') => Some(vec!['ゔ', 'ぁ']),
        ('v', 'i') => Some(vec!['ゔ', 'ぃ']),
        ('v', 'u') => Some(vec!['ゔ']),
        ('v', 'e') => Some(vec!['ゔ', 'ぇ']),
        ('v', 'o') => Some(vec!['ゔ', 'ぉ']),
        ('k', 'a') => Some(vec!['か']),
        ('k', 'i') => Some(vec!['き']),
        ('k', 'u') => Some(vec!['く']),
        ('k', 'e') => Some(vec!['け']),
        ('k', 'o') => Some(vec!['こ']),
        ('c', 'a') => Some(vec!['か']),
        ('c', 'i') => Some(vec!['き']),
        ('c', 'u') => Some(vec!['く']),
        ('c', 'e') => Some(vec!['け']),
        ('c', 'o') => Some(vec!['こ']),
        ('q', 'a') => Some(vec!['く', 'ぁ']),
        ('q', 'i') => Some(vec!['く', 'ぃ']),
        ('q', 'e') => Some(vec!['く', 'ぇ']),
        ('q', 'o') => Some(vec!['く', 'ぉ']),
        ('g', 'a') => Some(vec!['が']),
        ('g', 'i') => Some(vec!['ぎ']),
        ('g', 'u') => Some(vec!['ぐ']),
        ('g', 'e') => Some(vec!['げ']),
        ('g', 'o') => Some(vec!['ご']),
        ('s', 'a') => Some(vec!['さ']),
        ('s', 'i') => Some(vec!['し']),
        ('s', 'u') => Some(vec!['す']),
        ('s', 'e') => Some(vec!['せ']),
        ('s', 'o') => Some(vec!['そ']),
        ('z', 'a') => Some(vec!['ざ']),
        ('z', 'i') => Some(vec!['じ']),
        ('z', 'u') => Some(vec!['ず']),
        ('z', 'e') => Some(vec!['ぜ']),
        ('z', 'o') => Some(vec!['ぞ']),
        ('j', 'i') => Some(vec!['じ']),
        ('j', 'a') => Some(vec!['じ', 'ゃ']),
        ('j', 'u') => Some(vec!['じ', 'ゅ']),
        ('j', 'e') => Some(vec!['じ', 'ぇ']),
        ('j', 'o') => Some(vec!['じ', 'ょ']),
        ('t', 'a') => Some(vec!['た']),
        ('t', 'i') => Some(vec!['ち']),
        ('t', 'u') => Some(vec!['つ']),
        ('t', 'e') => Some(vec!['て']),
        ('t', 'o') => Some(vec!['と']),
        ('d', 'a') => Some(vec!['だ']),
        ('d', 'i') => Some(vec!['ぢ']),
        ('d', 'u') => Some(vec!['づ']),
        ('d', 'e') => Some(vec!['で']),
        ('d', 'o') => Some(vec!['ど']),
        ('n', 'a') => Some(vec!['な']),
        ('n', 'i') => Some(vec!['に']),
        ('n', 'u') => Some(vec!['ぬ']),
        ('n', 'e') => Some(vec!['ね']),
        ('n', 'o') => Some(vec!['の']),
        ('h', 'a') => Some(vec!['は']),
        ('h', 'i') => Some(vec!['ひ']),
        ('h', 'u') => Some(vec!['ふ']),
        ('h', 'e') => Some(vec!['へ']),
        ('h', 'o') => Some(vec!['ほ']),
        ('f', 'u') => Some(vec!['ふ']),
        ('f', 'a') => Some(vec!['ふ', 'ぁ']),
        ('f', 'i') => Some(vec!['ふ', 'ぃ']),
        ('f', 'e') => Some(vec!['ふ', 'ぇ']),
        ('f', 'o') => Some(vec!['ふ', 'ぉ']),
        ('b', 'a') => Some(vec!['ば']),
        ('b', 'i') => Some(vec!['び']),
        ('b', 'u') => Some(vec!['ぶ']),
        ('b', 'e') => Some(vec!['べ']),
        ('b', 'o') => Some(vec!['ぼ']),
        ('p', 'a') => Some(vec!['ぱ']),
        ('p', 'i') => Some(vec!['ぴ']),
        ('p', 'u') => Some(vec!['ぷ']),
        ('p', 'e') => Some(vec!['ぺ']),
        ('p', 'o') => Some(vec!['ぽ']),
        ('m', 'a') => Some(vec!['ま']),
        ('m', 'i') => Some(vec!['み']),
        ('m', 'u') => Some(vec!['む']),
        ('m', 'e') => Some(vec!['め']),
        ('m', 'o') => Some(vec!['も']),
        ('y', 'a') => Some(vec!['や']),
        ('y', 'u') => Some(vec!['ゆ']),
        ('y', 'o') => Some(vec!['よ']),
        ('r', 'a') => Some(vec!['ら']),
        ('r', 'i') => Some(vec!['り']),
        ('r', 'u') => Some(vec!['る']),
        ('r', 'e') => Some(vec!['れ']),
        ('r', 'o') => Some(vec!['ろ']),
        ('l', 'a') => Some(vec!['ら']),
        ('l', 'i') => Some(vec!['り']),
        ('l', 'u') => Some(vec!['る']),
        ('l', 'e') => Some(vec!['れ']),
        ('l', 'o') => Some(vec!['ろ']),
        ('w', 'a') => Some(vec!['わ']),
        ('w', 'o') => Some(vec!['を']),
        ('n', '\'') => Some(vec!['ん']),
        ('n', ' ') => Some(vec!['ん', ' ']),
        ('x', 'n') => Some(vec!['ん']),
        _ => None,
    }
}

/// Romaji to kana: the entries with three-character lower-case keys.
#[verifier::opaque]
pub open spec fn romaji_kana3(a: char, b: char, c: char) -> Option<Seq<char>> {
    match (a, b, c) {
        ('w', 'h', 'u') => Some(seq!['う']),
        ('x', 'y', 'i') => Some(seq!['ぃ']),
        ('x', 'y', 'e') => Some(seq!['ぇ']),
        ('w', 'h', 'a') => Some(seq!['う', 'ぁ']),
        ('w', 'h', 'i') => Some(seq!['う', 'ぃ']),
        ('w', 'h', 'e') => Some(seq!['う', 'ぇ']),
        ('w', 'h', 'o') => Some(seq!['う', 'ぉ']),
        ('v', 'y', 'a') => Some(seq!['ゔ', 'ゃ']),
        ('v', 'y', 'i') => Some(seq!['ゔ', 'ぃ']),
        ('v', 'y', 'u') => Some(seq!['ゔ', 'ゅ']),
        ('v', 'y', 'e') => Some(seq!['ゔ', 'ぇ']),
        ('v', 'y', 'o') => Some(seq!['ゔ', 'ょ']),
        ('l', 'k', 'a') => Some(seq!['ヵ']),
        ('l', 'k', 'e') => Some(seq!['ヶ']),
        ('x', 'k', 'a') => Some(seq!['ヵ']),
        ('x', 'k', 'e') => Some(seq!['ヶ']),
        ('k', 'y', 'a') => Some(seq!['き', 'ゃ']),
        ('k', 'y', 'i') => Some(seq!['き', 'ぃ']),
        ('k', 'y', 'u') => Some(seq!['き', 'ゅ']),
        ('k', 'y', 'e') => Some(seq!['き', 'ぇ']),
        ('k', 'y', 'o') => Some(seq!['き', 'ょ']),
        ('l', 'c', 'a') => Some(seq!['ヵ']),
        ('l', 'c', 'e') => Some(seq!['ヶ']),
        ('x', 'c', 'a') => Some(seq!['ヵ']),
        ('x', 'c', 'e') => Some(seq!['ヶ']),
        ('q', 'y', 'a') => Some(seq!['く', 'ゃ']),
        ('q', 'y', 'u') => Some(seq!['く', 'ゅ']),
        ('q', 'y', 'o') => Some(seq!['く', 'ょ']),
        ('q', 'w', 'a') => Some(seq!['く', 'ぁ']),
        ('q', 'w', 'i') => Some(seq!['く', 'ぃ']),
        ('q', 'w', 'u') => Some(seq!['く', 'ぅ']),
        ('q', 'w', 'e') => Some(seq!['く', 'ぇ']),
        ('q', 'w', 'o') => Some(seq!['く', 'ぉ']),
        ('k', 'w', 'a') => Some(seq!['く', 'ぁ']),
        ('q', 'y', 'i') => Some(seq!['く', 'ぃ']),
        ('q', 'y', 'e') => Some(seq!['く', 'ぇ']),
        ('g', 'y', 'a') => Some(seq!['ぎ', 'ゃ']),
        ('g', 'y', 'i') => Some(seq!['ぎ', 'ぃ']),
        ('g', 'y', 'u') => Some(seq!['ぎ', 'ゅ']),
        ('g', 'y', 'e') => Some(seq!['ぎ', 'ぇ']),
        ('g', 'y', 'o') => Some(seq!['ぎ', 'ょ']),
        ('g', 'w', 'a') => Some(seq!['ぐ', 'ぁ']),
        ('g', 'w', 'i') => Some(seq!['ぐ', 'ぃ']),
        ('g', 'w', 'u') => Some(seq!['ぐ', 'ぅ']),
        ('g', 'w', 'e') => Some(seq!['ぐ', 'ぇ']),
        ('g', 'w', 'o') => Some(seq!['ぐ', 'ぉ']),
        ('s', 'h', 'i') => Some(seq!['し']),
        ('s', 'y', 'a') => Some(seq!['し', 'ゃ']),
        ('s', 'y', 'i') => Some(seq!['し', 'ぃ']),
        ('s', 'y', 'u') => Some(seq!['し', 'ゅ']),
        ('s', 'y', 'e') => Some(seq!['し', 'ぇ']),
        ('s', 'y', 'o') => Some(seq!['し', 'ょ']),
        ('s', 'h', 'a') => Some(seq!['し', 'ゃ']),
        ('s', 'h', 'u') => Some(seq!['し', 'ゅ']),
        ('s', 'h', 'e') => Some(seq!['し', 'ぇ']),
        ('s', 'h', 'o') => Some(seq!['し', 'ょ']),
        ('s', 'w', 'a') => Some(seq!['す', 'ぁ']),
        ('s', 'w', 'i') => Some(seq!['す', 'ぃ']),
        ('s', 'w', 'u') => Some(seq!['す', 'ぅ']),
        ('s', 'w', 'e') => Some(seq!['す', 'ぇ']),
        ('s', 'w', 'o') => Some(seq!['す', 'ぉ']),
        ('z', 'y', 'a') => Some(seq!['じ', 'ゃ']),
        ('z', 'y', 'i') => Some(seq!['じ', 'ぃ']),
        ('z', 'y', 'u') => Some(seq!['じ', 'ゅ']),
        ('z', 'y', 'e') => Some(seq!['じ', 'ぇ']),
        ('z', 'y', 'o') => Some(seq!['じ', 'ょ']),
        ('j', 'y', 'a') => Some(seq!['じ', 'ゃ']),
        ('j', 'y', 'i') => Some(seq!['じ', 'ぃ']),
        ('j', 'y', 'u') => Some(seq!['じ', 'ゅ']),
        ('j', 'y', 'e') => Some(seq!['じ', 'ぇ']),
        ('j', 'y', 'o') => Some(seq!['じ', 'ょ']),
        ('c', 'h', 'i') => Some(seq!['ち']),
        ('t', 's', 'u') => Some(seq!['つ']),
        ('l', 't', 'u') => Some(seq!['っ']),
        ('x', 't', 'u') => Some(seq!['っ']),
        ('t', 'y', 'a') => Some(seq!['ち', 'ゃ']),
        ('t', 'y', 'i') => Some(seq!['ち', 'ぃ']),
        ('t', 'y', 'u') => Some(seq!['ち', 'ゅ']),
        ('t', 'y', 'e') => Some(seq!['ち', 'ぇ']),
        ('t', 'y', 'o') => Some(seq!['ち', 'ょ']),
        ('c', 'h', 'a') => Some(seq!['ち', 'ゃ']),
        ('c', 'h', 'u') => Some(seq!['ち', 'ゅ']),
        ('c', 'h', 'e') => Some(seq!['ち', 'ぇ']),
        ('c', 'h', 'o') => Some(seq!['ち', 'ょ']),
        ('c', 'y', 'a') => Some(seq!['ち', 'ゃ']),
        ('c', 'y', 'i') => Some(seq!['ち', 'ぃ']),
        ('c', 'y', 'u') => Some(seq!['ち', 'ゅ']),
        ('c', 'y', 'e') => Some(seq!['ち', 'ぇ']),
        ('c', 'y', 'o') => Some(seq!['ち', 'ょ']),
        ('t', 's', 'a') => Some(seq!['つ', 'ぁ']),
        ('t', 's', 'i') => Some(seq!['つ', 'ぃ']),
        ('t', 's', 'e') => Some(seq!['つ', 'ぇ']),
        ('t', 's', 'o') => Some(seq!['つ', 'ぉ']),
        ('t', 'h', 'a') => Some(seq!['て', 'ゃ']),
        ('t', 'h', 'i') => Some(seq!['て', 'ぃ']),
        ('t', 'h', 'u') => Some(seq!['て', 'ゅ']),
        ('t', 'h', 'e') => Some(seq!['て', 'ぇ']),
        ('t', 'h', 'o') => Some(seq!['て', 'ょ']),
        ('t', 'w', 'a') => Some(seq!['と', 'ぁ']),
        ('t', 'w', 'i') => Some(seq!['と', 'ぃ']),
        ('t', 'w', 'u') => Some(seq!['と', 'ぅ']),
        ('t', 'w', 'e') => Some(seq!['と', 'ぇ']),
        ('t', 'w', 'o') => Some(seq!['と', 'ぉ']),
        ('d', 'y', 'a') => Some(seq!['ぢ', 'ゃ']),
        ('d', 'y', 'i') => Some(seq!['ぢ', 'ぃ']),
        ('d', 'y', 'u') => Some(seq!['ぢ', 'ゅ']),
        ('d', 'y', 'e') => Some(seq!['ぢ', 'ぇ']),
        ('d', 'y', 'o') => Some(seq!['ぢ', 'ょ']),
        ('d', 'h', 'a') => Some(seq!['で', 'ゃ']),
        ('d', 'h', 'i') => Some(seq!['で', 'ぃ']),
        ('d', 'h', 'u') => Some(seq!['で', 'ゅ']),
        ('d', 'h', 'e') => Some(seq!['で', 'ぇ']),
        ('d', 'h', 'o') => Some(seq!['で', 'ょ']),
        ('d', 'w', 'a') => Some(seq!['ど', 'ぁ']),
        ('d', 'w', 'i') => Some(seq!['ど', 'ぃ']),
        ('d', 'w', 'u') => Some(seq!['ど', 'ぅ']),
        ('d', 'w', 'e') => Some(seq!['ど', 'ぇ']),
        ('d', 'w', 'o') => Some(seq!['ど', 'ぉ']),
        ('n', 'y', 'a') => Some(seq!['に', 'ゃ']),
        ('n', 'y', 'i') => Some(seq!['に', 'ぃ']),
        ('n', 'y', 'u') => Some(seq!['に', 'ゅ']),
        ('n', 'y', 'e') => Some(seq!['に', 'ぇ']),
        ('n', 'y', 'o') => Some(seq!['に', 'ょ']),
        ('h', 'y', 'a') => Some(seq!['ひ', 'ゃ']),
        ('h', 'y', 'i') => Some(seq!['ひ', 'ぃ']),
        ('h', 'y', 'u') => Some(seq!['ひ', 'ゅ']),
        ('h', 'y', 'e') => Some(seq!['ひ', 'ぇ']),
        ('h', 'y', 'o') => Some(seq!['ひ', 'ょ']),
        ('f', 'y', 'a') => Some(seq!['ふ', 'ゃ']),
        ('f', 'y', 'u') => Some(seq!['ふ', 'ゅ']),
        ('f', 'y', 'o') => Some(seq!['ふ', 'ょ']),
        ('f', 'w', 'a') => Some(seq!['ふ', 'ぁ']),
        ('f', 'w', 'i') => Some(seq!['ふ', 'ぃ']),
        ('f', 'w', 'u') => Some(seq!['ふ', 'ぅ']),
        ('f', 'w', 'e') => Some(seq!['ふ', 'ぇ']),
        ('f', 'w', 'o') => Some(seq!['ふ', 'ぉ']),
        ('f', 'y', 'i') => Some(seq!['ふ', 'ぃ']),
        ('f', 'y', 'e') => Some(seq!['ふ', 'ぇ']),
        ('b', 'y', 'a') => Some(seq!['び', 'ゃ']),
        ('b', 'y', 'i') => Some(seq!['び', 'ぃ']),
        ('b', 'y', 'u') => Some(seq!['び', 'ゅ']),
        ('b', 'y', 'e') => Some(seq!['び', 'ぇ']),
        ('b', 'y', 'o') => Some(seq!['び', 'ょ']),
        ('p', 'y', 'a') => Some(seq!['ぴ', 'ゃ']),
        ('p', 'y', 'i') => Some(seq!['ぴ', 'ぃ']),
        ('p', 'y', 'u') => Some(seq!['ぴ', 'ゅ']),
        ('p', 'y', 'e') => Some(seq!['ぴ', 'ぇ']),
        ('p', 'y', 'o') => Some(seq!['ぴ', 'ょ']),
        ('m', 'y', 'a') => Some(seq!['み', 'ゃ']),
        ('m', 'y', 'i') => Some(seq!['み', 'ぃ']),
        ('m', 'y', 'u') => Some(seq!['み', 'ゅ']),
        ('m', 'y', 'e') => Some(seq!['み', 'ぇ']),
        ('m', 'y', 'o') => Some(seq!['み', 'ょ']),
        ('x', 'y', 'a') => Some(seq!['ゃ']),
        ('x', 'y', 'u') => Some(seq!['ゅ']),
        ('x', 'y', 'o') => Some(seq!['ょ']),
        ('r', 'y', 'a') => Some(seq!['り', 'ゃ']),
        ('r', 'y', 'i') => Some(seq!['り', 'ぃ']),
        ('r', 'y', 'u') => Some(seq!['り', 'ゅ']),
        ('r', 'y', 'e') => Some(seq!['り', 'ぇ']),
        ('r', 'y', 'o') => Some(seq!['り', 'ょ']),
        ('l', 'y', 'a') => Some(seq!['り', 'ゃ']),
        ('l', 'y', 'i') => Some(seq!['り', 'ぃ']),
        ('l', 'y', 'u') => Some(seq!['り', 'ゅ']),
        ('l', 'y', 'e') => Some(seq!['り', 'ぇ']),
        ('l', 'y', 'o') => Some(seq!['り', 'ょ']),
        ('l', 'w', 'e') => Some(seq!['ゎ']),
        ('x', 'w', 'a') => Some(seq!['ゎ']),
        ('n', '\'', 'a') => Some(seq!['ん', 'あ']),
        ('n', '\'', 'i') => Some(seq!['ん', 'い']),
        ('n', '\'', 'u') => Some(seq!['ん', 'う']),
        ('n', '\'', 'e') => Some(seq!['ん', 'え']),
        ('n', '\'', 'o') => Some(seq!['ん', 'お']),
        ('n', 'w', 'i') => Some(seq!['ん', 'う', 'ぃ']),
        ('n', 'w', 'e') => Some(seq!['ん', 'う', 'ぇ']),
        _ => None,
    }
}

fn find_romaji_kana3(a: char, b: char, c: char) -> (r: Option<Vec<char>>)
    ensures
        seq_opt(r) == romaji_kana3(a, b, c),
{
    proof {
        reveal(romaji_kana3);
    }
    match (a, b, c) {
        ('w', 'h', 'u') => Some(vec!['う']),
        ('x', 'y', 'i') => Some(vec!['ぃ']),
        ('x', 'y', 'e') => Some(vec!['ぇ']),
        ('w', 'h', 'a') => Some(vec!['う', 'ぁ']),
        ('w', 'h', 'i') => Some(vec!['う', 'ぃ']),
        ('w', 'h', 'e') => Some(vec!['う', 'ぇ']),
        ('w', 'h', 'o') => Some(vec!['う', 'ぉ']),
        ('v', 'y', 'a') => Some(vec!['ゔ', 'ゃ']),
        ('v', 'y', 'i') => Some(vec!['ゔ', 'ぃ']),
        ('v', 'y', 'u') => Some(vec!['ゔ', 'ゅ']),
        ('v', 'y', 'e') => Some(vec!['ゔ', 'ぇ']),
        ('v', 'y', 'o') => Some(vec!['ゔ', 'ょ']),
        ('l', 'k', 'a') => Some(vec!['ヵ']),
        ('l', 'k', 'e') => Some(vec!['ヶ']),
        ('x', 'k', 'a') => Some(vec!['ヵ']),
        ('x', 'k', 'e') => Some(vec!['ヶ']),
        ('k', 'y', 'a') => Some(vec!['き', 'ゃ']),
        ('k', 'y', 'i') => Some(vec!['き', 'ぃ']),
        ('k', 'y', 'u') => Some(vec!['き', 'ゅ']),
        ('k', 'y', 'e') => Some(vec!['き', 'ぇ']),
        ('k', 'y', 'o') => Some(vec!['き', 'ょ']),
        ('l', 'c', 'a') => Some(vec!['ヵ']),
        ('l', 'c', 'e') => Some(vec!['ヶ']),
        ('x', 'c', 'a') => Some(vec!['ヵ']),
        ('x', 'c', 'e') => Some(vec!['ヶ']),
        ('q', 'y', 'a') => Some(vec!['く', 'ゃ']),
        ('q', 'y', 'u') => Some(vec!['く', 'ゅ']),
        ('q', 'y', 'o') => Some(vec!['く', 'ょ']),
        ('q', 'w', 'a') => Some(vec!['く', 'ぁ']),
        ('q', 'w', 'i') => Some(vec!['く', 'ぃ']),
        ('q', 'w', 'u') => Some(vec!['く', 'ぅ']),
        ('q', 'w', 'e') => Some(vec!['く', 'ぇ']),
        ('q', 'w', 'o') => Some(vec!['く', 'ぉ']),
        ('k', 'w', 'a') => Some(vec!['く', 'ぁ']),
        ('q', 'y', 'i') => Some(vec!['く', 'ぃ']),
        ('q', 'y', 'e') => Some(vec!['く', 'ぇ']),
        ('g', 'y', 'a') => Some(vec!['ぎ', 'ゃ']),
        ('g', 'y', 'i') => Some(vec!['ぎ', 'ぃ']),
        ('g', 'y', 'u') => Some(vec!['ぎ', 'ゅ']),
        ('g', 'y', 'e') => Some(vec!['ぎ', 'ぇ']),
        ('g', 'y', 'o') => Some(vec!['ぎ', 'ょ']),
        ('g', 'w', 'a') => Some(vec!['ぐ', 'ぁ']),
        ('g', 'w', 'i') => Some(vec!['ぐ', 'ぃ']),
        ('g', 'w', 'u') => Some(vec!['ぐ', 'ぅ']),
        ('g', 'w', 'e') => Some(vec!['ぐ', 'ぇ']),
        ('g', 'w', 'o') => Some(vec!['ぐ', 'ぉ']),
        ('s', 'h', 'i') => Some(vec!['し']),
        ('s', 'y', 'a') => Some(vec!['し', 'ゃ']),
        ('s', 'y', 'i') => Some(vec!['し', 'ぃ']),
        ('s', 'y', 'u') => Some(vec!['し', 'ゅ']),
        ('s', 'y', 'e') => Some(vec!['し', 'ぇ']),
        ('s', 'y', 'o') => Some(vec!['し', 'ょ']),
        ('s', 'h', 'a') => Some(vec!['し', 'ゃ']),
        ('s', 'h', 'u') => Some(vec!['し', 'ゅ']),
        ('s', 'h', 'e') => Some(vec!['し', 'ぇ']),
        ('s', 'h', 'o') => Some(vec!['し', 'ょ']),
        ('s', 'w', 'a') => Some(vec!['す', 'ぁ']),
        ('s', 'w', 'i') => Some(vec!['す', 'ぃ']),
        ('s', 'w', 'u') => Some(vec!['す', 'ぅ']),
        ('s', 'w', 'e') => Some(vec!['す', 'ぇ']),
        ('s', 'w', 'o') => Some(vec!['す', 'ぉ']),
        ('z', 'y', 'a') => Some(vec!['じ', 'ゃ']),
        ('z', 'y', 'i') => Some(vec!['じ', 'ぃ']),
        ('z', 'y', 'u') => Some(vec!['じ', 'ゅ']),
        ('z', 'y', 'e') => Some(vec!['じ', 'ぇ']),
        ('z', 'y', 'o') => Some(vec!['じ', 'ょ']),
        ('j', 'y', 'a') => Some(vec!['じ', 'ゃ']),
        ('j', 'y', 'i') => Some(vec!['じ', 'ぃ']),
        ('j', 'y', 'u') => Some(vec!['じ', 'ゅ']),
        ('j', 'y', 'e') => Some(vec!['じ', 'ぇ']),
        ('j', 'y', 'o') => Some(vec!['じ', 'ょ']),
        ('c', 'h', 'i') => Some(vec!['ち']),
        ('t', 's', 'u') => Some(vec!['つ']),
        ('l', 't', 'u') => Some(vec!['っ']),
        ('x', 't', 'u') => Some(vec!['っ']),
        ('t', 'y', 'a') => Some(vec!['ち', 'ゃ']),
        ('t', 'y', 'i') => Some(vec!['ち', 'ぃ']),
        ('t', 'y', 'u') => Some(vec!['ち', 'ゅ']),
        ('t', 'y', 'e') => Some(vec!['ち', 'ぇ']),
        ('t', 'y', 'o') => Some(vec!['ち', 'ょ']),
        ('c', 'h', 'a') => Some(vec!['ち', 'ゃ']),
        ('c', 'h', 'u') => Some(vec!['ち', 'ゅ']),
        ('c', 'h', 'e') => Some(vec!['ち', 'ぇ']),
        ('c', 'h', 'o') => Some(vec!['ち', 'ょ']),
        ('c', 'y', 'a') => Some(vec!['ち', 'ゃ']),
        ('c', 'y', 'i') => Some(vec!['ち', 'ぃ']),
        ('c', 'y', 'u') => Some(vec!['ち', 'ゅ']),
        ('c', 'y', 'e') => Some(vec!['ち', 'ぇ']),
        ('c', 'y', 'o') => Some(vec!['ち', 'ょ']),
        ('t', 's', 'a') => Some(vec!['つ', 'ぁ']),
        ('t', 's', 'i') => Some(vec!['つ', 'ぃ']),
        ('t', 's', 'e') => Some(vec!['つ', 'ぇ']),
        ('t', 's', 'o') => Some(vec!['つ', 'ぉ']),
        ('t', 'h', 'a') => Some(vec!['て', 'ゃ']),
        ('t', 'h', 'i') => Some(vec!['て', 'ぃ']),
        ('t', 'h', 'u') => Some(vec!['て', 'ゅ']),
        ('t', 'h', 'e') => Some(vec!['て', 'ぇ']),
        ('t', 'h', 'o') => Some(vec!['て', 'ょ']),
        ('t', 'w', 'a') => Some(vec!['と', 'ぁ']),
        ('t', 'w', 'i') => Some(vec!['と', 'ぃ']),
        ('t', 'w', 'u') => Some(vec!['と', 'ぅ']),
        ('t', 'w', 'e') => Some(vec!['と', 'ぇ']),
        ('t', 'w', 'o') => Some(vec!['と', 'ぉ']),
        ('d', 'y', 'a') => Some(vec!['ぢ', 'ゃ']),
        ('d', 'y', 'i') => Some(vec!['ぢ', 'ぃ']),
        ('d', 'y', 'u') => Some(vec!['ぢ', 'ゅ']),
        ('d', 'y', 'e') => Some(vec!['ぢ', 'ぇ']),
        ('d', 'y', 'o') => Some(vec!['ぢ', 'ょ']),
        ('d', 'h', 'a') => Some(vec!['で', 'ゃ']),
        ('d', 'h', 'i') => Some(vec!['で', 'ぃ']),
        ('d', 'h', 'u') => Some(vec!['で', 'ゅ']),
        ('d', 'h', 'e') => Some(vec!['で', 'ぇ']),
        ('d', 'h', 'o') => Some(vec!['で', 'ょ']),
        ('d', 'w', 'a') => Some(vec!['ど', 'ぁ']),
        ('d', 'w', 'i') => Some(vec!['ど', 'ぃ']),
        ('d', 'w', 'u') => Some(vec!['ど', 'ぅ']),
        ('d', 'w', 'e') => Some(vec!['ど', 'ぇ']),
        ('d', 'w', 'o') => Some(vec!['ど', 'ぉ']),
        ('n', 'y', 'a') => Some(vec!['に', 'ゃ']),
        ('n', 'y', 'i') => Some(vec!['に', 'ぃ']),
        ('n', 'y', 'u') => Some(vec!['に', 'ゅ']),
        ('n', 'y', 'e') => Some(vec!['に', 'ぇ']),
        ('n', 'y', 'o') => Some(vec!['に', 'ょ']),
        ('h', 'y', 'a') => Some(vec!['ひ', 'ゃ']),
        ('h', 'y', 'i') => Some(vec!['ひ', 'ぃ']),
        ('h', 'y', 'u') => Some(vec!['ひ', 'ゅ']),
        ('h', 'y', 'e') => Some(vec!['ひ', 'ぇ']),
        ('h', 'y', 'o') => Some(vec!['ひ', 'ょ']),
        ('f', 'y', 'a') => Some(vec!['ふ', 'ゃ']),
        ('f', 'y', 'u') => Some(vec!['ふ', 'ゅ']),
        ('f', 'y', 'o') => Some(vec!['ふ', 'ょ']),
        ('f', 'w', 'a') => Some(vec!['ふ', 'ぁ']),
        ('f', 'w', 'i') => Some(vec!['ふ', 'ぃ']),
        ('f', 'w', 'u') => Some(vec!['ふ', 'ぅ']),
        ('f', 'w', 'e') => Some(vec!['ふ', 'ぇ']),
        ('f', 'w', 'o') => Some(vec!['ふ', 'ぉ']),
        ('f', 'y', 'i') => Some(vec!['ふ', 'ぃ']),
        ('f', 'y', 'e') => Some(vec!['ふ', 'ぇ']),
        ('b', 'y', 'a') => Some(vec!['び', 'ゃ']),
        ('b', 'y', 'i') => Some(vec!['び', 'ぃ']),
        ('b', 'y', 'u') => Some(vec!['び', 'ゅ']),
        ('b', 'y', 'e') => Some(vec!['び', 'ぇ']),
        ('b', 'y', 'o') => Some(vec!['び', 'ょ']),
        ('p', 'y', 'a') => Some(vec!['ぴ', 'ゃ']),
        ('p', 'y', 'i') => Some(vec!['ぴ', 'ぃ']),
        ('p', 'y', 'u') => Some(vec!['ぴ', 'ゅ']),
        ('p', 'y', 'e') => Some(vec!['ぴ', 'ぇ']),
        ('p', 'y', 'o') => Some(vec!['ぴ', 'ょ']),
        ('m', 'y', 'a') => Some(vec!['み', 'ゃ']),
        ('m', 'y', 'i') => Some(vec!['み', 'ぃ']),
        ('m', 'y', 'u') => Some(vec!['み', 'ゅ']),
        ('m', 'y', 'e') => Some(vec!['み', 'ぇ']),
        ('m', 'y', 'o') => Some(vec!['み', 'ょ']),
        ('x', 'y', 'a') => Some(vec!['ゃ']),
        ('x', 'y', 'u') => Some(vec!['ゅ']),
        ('x', 'y', 'o') => Some(vec!['ょ']),
        ('r', 'y', 'a') => Some(vec!['り', 'ゃ']),
        ('r', 'y', 'i') => Some(vec!['り', 'ぃ']),
        ('r', 'y', 'u') => Some(vec!['り', 'ゅ']),
        ('r', 'y', 'e') => Some(vec!['り', 'ぇ']),
        ('r', 'y', 'o') => Some(vec!['り', 'ょ']),
        ('l', 'y', 'a') => Some(vec!['り', 'ゃ']),
        ('l', 'y', 'i') => Some(vec!['り', 'ぃ']),
        ('l', 'y', 'u') => Some(vec!['り', 'ゅ']),
        ('l', 'y', 'e') => Some(vec!['り', 'ぇ']),
        ('l', 'y', 'o') => Some(vec!['り', 'ょ']),
        ('l', 'w', 'e') => Some(vec!['ゎ']),
        ('x', 'w', 'a') => Some(vec!['ゎ']),
        ('n', '\'', 'a') => Some(vec!['ん', 'あ']),
        ('n', '\'', 'i') => Some(vec!['ん', 'い']),
        ('n', '\'', 'u') => Some(vec!['ん', 'う']),
        ('n', '\'', 'e') => Some(vec!['ん', 'え']),
        ('n', '\'', 'o') => Some(vec!['ん', 'お']),
        ('n', 'w', 'i') => Some(vec!['ん', 'う', 'ぃ']),
        ('n', 'w', 'e') => Some(vec!['ん', 'う', 'ぇ']),
        _ => None,
    }
}

/// Romaji to kana: the entries with four-character lower-case keys.
#[verifier::opaque]
pub open spec fn romaji_kana4(a: char, b: char, c: char, d: char) -> Option<Seq<char>> {
    match (a, b, c, d) {
        ('s', 'h', 'y', 'a') => Some(seq!['し', 'ゃ']),
        ('s', 'h', 'y', 'u') => Some(seq!['し', 'ゅ']),
        ('s', 'h', 'y', 'e') => Some(seq!['し', 'ぇ']),
        ('s', 'h', 'y', 'o') => Some(seq!['し', 'ょ']),
        ('c', 'h', 'y', 'a') => Some(seq!['ち', 'ゃ']),
        ('c', 'h', 'y', 'u') => Some(seq!['ち', 'ゅ']),
        ('c', 'h', 'y', 'e') => Some(seq!['ち', 'ぇ']),
        ('c', 'h', 'y', 'o') => Some(seq!['ち', 'ょ']),
        ('l', 't', 's', 'u') => Some(seq!['っ']),
        ('n', '\'', 'y', 'a') => Some(seq!['ん', 'や']),
        ('n', '\'', 'y', 'u') => Some(seq!['ん', 'ゆ']),
        ('n', '\'', 'y', 'o') => Some(seq!['ん', 'よ']),
        ('n', 'w', 'h', 'a') => Some(seq!['ん', 'う', 'ぁ']),
        ('n', 'w', 'h', 'o') => Some(seq!['ん', 'う', 'ぉ']),
        ('n', '\'', 'y', 'e') => Some(seq!['ん', 'い', 'ぇ']),
        _ => None,
    }
}

fn find_romaji_kana4(a: char, b: char, c: char, d: char) -> (r: Option<Vec<char>>)
    ensures
        seq_opt(r) == romaji_kana4(a, b, c, d),
{
    proof {
        reveal(romaji_kana4);
    }
    match (a, b, c, d) {
        ('s', 'h', 'y', 'a') => Some(vec!['し', 'ゃ']),
        ('s', 'h', 'y', 'u') => Some(vec!['し', 'ゅ']),
        ('s', 'h', 'y', 'e') => Some(vec!['し', 'ぇ']),
        ('s', 'h', 'y', 'o') => Some(vec!['し', 'ょ']),
        ('c', 'h', 'y', 'a') => Some(vec!['ち', 'ゃ']),
        ('c', 'h', 'y', 'u') => Some(vec!['ち', 'ゅ']),
        ('c', 'h', 'y', 'e') => Some(vec!['ち', 'ぇ']),
        ('c', 'h', 'y', 'o') => Some(vec!['ち', 'ょ']),
        ('l', 't', 's', 'u') => Some(vec!['っ']),
        ('n', '\'', 'y', 'a') => Some(vec!['ん', 'や']),
        ('n', '\'', 'y', 'u') => Some(vec!['ん', 'ゆ']),
        ('n', '\'', 'y', 'o') => Some(vec!['ん', 'よ']),
        ('n', 'w', 'h', 'a') => Some(vec!['ん', 'う', 'ぁ']),
        ('n', 'w', 'h', 'o') => Some(vec!['ん', 'う', 'ぉ']),
        ('n', '\'', 'y', 'e') => Some(vec!['ん', 'い', 'ぇ']),
        _ => None,
    }
}

/// Kana to Romaji: the entries with one-character Hiragana (or symbol) keys.
#[verifier::opaque]
pub open spec fn kana_romaji1(a: char) -> Option<Seq<char>> {
    match a {
        '　' => Some(seq![' ']),
        '！' => Some(seq!['!']),
        '？' => Some(seq!['?']),
        '。' => Some(seq!['.']),
        '：' => Some(seq![':', ' ']),
        '・' => Some(seq!['/']),
        '、' => Some(seq![',']),
        '〜' => Some(seq!['~']),
        'ー' => Some(seq!['-']),
        '「' => Some(seq!['‘']),
        '」' => Some(seq!['’']),
        '『' => Some(seq!['“']),
        '』' => Some(seq!['”']),
        '［' => Some(seq!['[']),
        '］' => Some(seq![']']),
        '（' => Some(seq!['(']),
        '）' => Some(seq![')']),
        '｛' => Some(seq!['{']),
        '｝' => Some(seq!['}']),
        '＝' => Some(seq!['-']),
        '゠' => Some(seq!['-']),
        'あ' => Some(seq!['a']),
        'い' => Some(seq!['i']),
        'う' => Some(seq!['u']),
        'え' => Some(seq!['e']),
        'お' => Some(seq!['o']),
        'ゔ' => Some(seq!['v', 'u']),
        'か' => Some(seq!['k', 'a']),
        'き' => Some(seq!['k', 'i']),
        'く' => Some(seq!['k', 'u']),
        'け' => Some(seq!['k', 'e']),
        'こ' => Some(seq!['k', 'o']),
        'が' => Some(seq!['g', 'a']),
        'ぎ' => Some(seq!['g', 'i']),
        'ぐ' => Some(seq!['g', 'u']),
        'げ' => Some(seq!['g', 'e']),
        'ご' => Some(seq!['g', 'o']),
        'さ' => Some(seq!['s', 'a']),
        'す' => Some(seq!['s', 'u']),
        'せ' => Some(seq!['s', 'e']),
        'そ' => Some(seq!['s', 'o']),
        'ざ' => Some(seq!['z', 'a']),
        'ず' => Some(seq!['z', 'u']),
        'ぜ' => Some(seq!['z', 'e']),
        'ぞ' => Some(seq!['z', 'o']),
        'し' => Some(seq!['s', 'h', 'i']),
        'じ' => Some(seq!['j', 'i']),
        'た' => Some(seq!['t', 'a']),
        'ち' => Some(seq!['c', 'h', 'i']),
        'つ' => Some(seq!['t', 's', 'u']),
        'て' => Some(seq!['t', 'e']),
        'と' => Some(seq!['t', 'o']),
        'だ' => Some(seq!['d', 'a']),
        'ぢ' => Some(seq!['d', 'i']),
        'づ' => Some(seq!['d', 'u']),
        'で' => Some(seq!['d', 'e']),
        'ど' => Some(seq!['d', 'o']),
        'な' => Some(seq!['n', 'a']),
        'に' => Some(seq!['n', 'i']),
        'ぬ' => Some(seq!['n', 'u']),
        'ね' => Some(seq!['n', 'e']),
        'の' => Some(seq!['n', 'o']),
        'は' => Some(seq!['h', 'a']),
        'ひ' => Some(seq!['h', 'i']),
        'ふ' => Some(seq!['f', 'u']),
        'へ' => Some(seq!['h', 'e']),
        'ほ' => Some(seq!['h', 'o']),
        'ば' => Some(seq!['b', 'a']),
        'び' => Some(seq!['b', 'i']),
        'ぶ' => Some(seq!['b', 'u']),
        'べ' => Some(seq!['b', 'e']),
        'ぼ' => Some(seq!['b', 'o']),
        'ぱ' => Some(seq!['p', 'a']),
        'ぴ' => Some(seq!['p', 'i']),
        'ぷ' => Some(seq!['p', 'u']),
        'ぺ' => Some(seq!['p', 'e']),
        'ぽ' => Some(seq!['p', 'o']),
        'ま' => Some(seq!['m', 'a']),
        'み' => Some(seq!['m', 'i']),
        'む' => Some(seq!['m', 'u']),
        'め' => Some(seq!['m', 'e']),
        'も' => Some(seq!['m', 'o']),
        'や' => Some(seq!['y', 'a']),
        'ゆ' => Some(seq!['y', 'u']),
        'よ' => Some(seq!['y', 'o']),
        'ら' => Some(seq!['r', 'a']),
        'り' => Some(seq!['r', 'i']),
        'る' => Some(seq!['r', 'u']),
        'れ' => Some(seq!['r', 'e']),
        'ろ' => Some(seq!['r', 'o']),
        'わ' => Some(seq!['w', 'a']),
        'を' => Some(seq!['w', 'o']),
        'ん' => Some(seq!['n']),
        'ゐ' => Some(seq!['w', 'i']),
        'ゑ' => Some(seq!['w', 'e']),
        'ヷ' => Some(seq!['v', 'a']),
        'ヸ' => Some(seq!['v', 'i']),
        'ヹ' => Some(seq!['v', 'e']),
        'ヺ' => Some(seq!['v', 'o']),
        'ヿ' => Some(seq!['k', 'o', 't', 'o']),
        'ゟ' => Some(seq!['y', 'o', 'r', 'i']),
        '〼' => Some(seq!['m', 'a', 's', 'u']),
        'ぁ' => Some(seq!['a']),
        'ぃ' => Some(seq!['i']),
        'ぇ' => Some(seq!['e']),
        'ぅ' => Some(seq!['u']),
        'ぉ' => Some(seq!['o']),
        'ゃ' => Some(seq!['y', 'a']),
        'ゅ' => Some(seq!['y', 'u']),
        'ょ' => Some(seq!['y', 'o']),
        'っ' => Some(seq!['~', 't', 's', 'u']),
        'ゕ' => Some(seq!['k', 'a']),
        'ゖ' => Some(seq!['k', 'a']),
        'ゎ' => Some(seq!['w', 'a']),
        'Ａ' => Some(seq!['A']),
        'Ｂ' => Some(seq!['B']),
        'Ｃ' => Some(seq!['C']),
        'Ｄ' => Some(seq!['D']),
        'Ｅ' => Some(seq!['E']),
        'Ｆ' => Some(seq!['F']),
        'Ｇ' => Some(seq!['G']),
        'Ｈ' => Some(seq!['H']),
        'Ｉ' => Some(seq!['I']),
        'Ｊ' => Some(seq!['J']),
        'Ｋ' => Some(seq!['K']),
        'Ｌ' => Some(seq!['L']),
        'Ｍ' => Some(seq!['M']),
        'Ｎ' => Some(seq!['N']),
        'Ｏ' => Some(seq!['O']),
        'Ｐ' => Some(seq!['P']),
        'Ｑ' => Some(seq!['Q']),
        'Ｒ' => Some(seq!['R']),
        'Ｓ' => Some(seq!['S']),
        'Ｔ' => Some(seq!['T']),
        'Ｕ' => Some(seq!['U']),
        'Ｖ' => Some(seq!['V']),
        'Ｗ' => Some(seq!['W']),
        'Ｘ' => Some(seq!['X']),
        'Ｙ' => Some(seq!['Y']),
        'Ｚ' => Some(seq!['Z']),
        'ａ' => Some(seq!['a']),
        'ｂ' => Some(seq!['b']),
        'ｃ' => Some(seq!['c']),
        'ｄ' => Some(seq!['d']),
        'ｅ' => Some(seq!['e']),
        'ｆ' => Some(seq!['f']),
        'ｇ' => Some(seq!['g']),
        'ｈ' => Some(seq!['h']),
        'ｉ' => Some(seq!['i']),
        'ｊ' => Some(seq!['j']),
        'ｋ' => Some(seq!['k']),
        'ｌ' => Some(seq!['l']),
        'ｍ' => Some(seq!['m']),
        'ｎ' => Some(seq!['n']),
        'ｏ' => Some(seq!['o']),
        'ｐ' => Some(seq!['p']),
        'ｑ' => Some(seq!['q']),
        'ｒ' => Some(seq!['r']),
        'ｓ' => Some(seq!['s']),
        'ｔ' => Some(seq!['t']),
        'ｕ' => Some(seq!['u']),
        'ｖ' => Some(seq!['v']),
        'ｗ' => Some(seq!['w']),
        'ｘ' => Some(seq!['x']),
        'ｙ' => Some(seq!['y']),
        'ｚ' => Some(seq!['z']),
        '０' => Some(seq!['0']),
        '１' => Some(seq!['1']),
        '２' => Some(seq!['2']),
        '３' => Some(seq!['3']),
        '４' => Some(seq!['4']),
        '５' => Some(seq!['5']),
        '６' => Some(seq!['6']),
        '７' => Some(seq!['7']),
        '８' => Some(seq!['8']),
        '９' => Some(seq!['9']),
        _ => None,
    }
}

fn find_kana_romaji1(a: char) -> (r: Option<Vec<char>>)
    ensures
        seq_opt(r) == kana_romaji1(a),
{
    proof {
        reveal(kana_romaji1);
    }
    match a {
        '　' => Some(vec![' ']),
        '！' => Some(vec!['!']),
        '？' => Some(vec!['?']),
        '。' => Some(vec!['.']),
        '：' => Some(vec![':', ' ']),
        '・' => Some(vec!['/']),
        '、' => Some(vec![',']),
        '〜' => Some(vec!['~']),
        'ー' => Some(vec!['-']),
        '「' => Some(vec!['‘']),
        '」' => Some(vec!['’']),
        '『' => Some(vec!['“']),
        '』' => Some(vec!['”']),
        '［' => Some(vec!['[']),
        '］' => Some(vec![']']),
        '（' => Some(vec!['(']),
        '）' => Some(vec![')']),
        '｛' => Some(vec!['{']),
        '｝' => Some(vec!['}']),
        '＝' => Some(vec!['-']),
        '゠' => Some(vec!['-']),
        'あ' => Some(vec!['a']),
        'い' => Some(vec!['i']),
        'う' => Some(vec!['u']),
        'え' => Some(vec!['e']),
        'お' => Some(vec!['o']),
        'ゔ' => Some(vec!['v', 'u']),
        'か' => Some(vec!['k', 'a']),
        'き' => Some(vec!['k', 'i']),
        'く' => Some(vec!['k', 'u']),
        'け' => Some(vec!['k', 'e']),
        'こ' => Some(vec!['k', 'o']),
        'が' => Some(vec!['g', 'a']),
        'ぎ' => Some(vec!['g', 'i']),
        'ぐ' => Some(vec!['g', 'u']),
        'げ' => Some(vec!['g', 'e']),
        'ご' => Some(vec!['g', 'o']),
        'さ' => Some(vec!['s', 'a']),
        'す' => Some(vec!['s', 'u']),
        'せ' => Some(vec!['s', 'e']),
        'そ' => Some(vec!['s', 'o']),
        'ざ' => Some(vec!['z', 'a']),
        'ず' => Some(vec!['z', 'u']),
        'ぜ' => Some(vec!['z', 'e']),
        'ぞ' => Some(vec!['z', 'o']),
        'し' => Some(vec!['s', 'h', 'i']),
        'じ' => Some(vec!['j', 'i']),
        'た' => Some(vec!['t', 'a']),
        'ち' => Some(vec!['c', 'h', 'i']),
        'つ' => Some(vec!['t', 's', 'u']),
        'て' => Some(vec!['t', 'e']),
        'と' => Some(vec!['t', 'o']),
        'だ' => Some(vec!['d', 'a']),
        'ぢ' => Some(vec!['d', 'i']),
        'づ' => Some(vec!['d', 'u']),
        'で' => Some(vec!['d', 'e']),
        'ど' => Some(vec!['d', 'o']),
        'な' => Some(vec!['n', 'a']),
        'に' => Some(vec!['n', 'i']),
        'ぬ' => Some(vec!['n', 'u']),
        'ね' => Some(vec!['n', 'e']),
        'の' => Some(vec!['n', 'o']),
        'は' => Some(vec!['h', 'a']),
        'ひ' => Some(vec!['h', 'i']),
        'ふ' => Some(vec!['f', 'u']),
        'へ' => Some(vec!['h', 'e']),
        'ほ' => Some(vec!['h', 'o']),
        'ば' => Some(vec!['b', 'a']),
        'び' => Some(vec!['b', 'i']),
        'ぶ' => Some(vec!['b', 'u']),
        'べ' => Some(vec!['b', 'e']),
        'ぼ' => Some(vec!['b', 'o']),
        'ぱ' => Some(vec!['p', 'a']),
        'ぴ' => Some(vec!['p', 'i']),
        'ぷ' => Some(vec!['p', 'u']),
        'ぺ' => Some(vec!['p', 'e']),
        'ぽ' => Some(vec!['p', 'o']),
        'ま' => Some(vec!['m', 'a']),
        'み' => Some(vec!['m', 'i']),
        'む' => Some(vec!['m', 'u']),
        'め' => Some(vec!['m', 'e']),
        'も' => Some(vec!['m', 'o']),
        'や' => Some(vec!['y', 'a']),
        'ゆ' => Some(vec!['y', 'u']),
        'よ' => Some(vec!['y', 'o']),
        'ら' => Some(vec!['r', 'a']),
        'り' => Some(vec!['r', 'i']),
        'る' => Some(vec!['r', 'u']),
        'れ' => Some(vec!['r', 'e']),
        'ろ' => Some(vec!['r', 'o']),
        'わ' => Some(vec!['w', 'a']),
        'を' => Some(vec!['w', 'o']),
        'ん' => Some(vec!['n']),
        'ゐ' => Some(vec!['w', 'i']),
        'ゑ' => Some(vec!['w', 'e']),
        'ヷ' => Some(vec!['v', 'a']),
        'ヸ' => Some(vec!['v', 'i']),
        'ヹ' => Some(vec!['v', 'e']),
        'ヺ' => Some(vec!['v', 'o']),
        'ヿ' => Some(vec!['k', 'o', 't', 'o']),
        'ゟ' => Some(vec!['y', 'o', 'r', 'i']),
        '〼' => Some(vec!['m', 'a', 's', 'u']),
        'ぁ' => Some(vec!['a']),
        'ぃ' => Some(vec!['i']),
        'ぇ' => Some(vec!['e']),
        'ぅ' => Some(vec!['u']),
        'ぉ' => Some(vec!['o']),
        'ゃ' => Some(vec!['y', 'a']),
        'ゅ' => Some(vec!['y', 'u']),
        'ょ' => Some(vec!['y', 'o']),
        'っ' => Some(vec!['~', 't', 's', 'u']),
        'ゕ' => Some(vec!['k', 'a']),
        'ゖ' => Some(vec!['k', 'a']),
        'ゎ' => Some(vec!['w', 'a']),
        'Ａ' => Some(vec!['A']),
        'Ｂ' => Some(vec!['B']),
        'Ｃ' => Some(vec!['C']),
        'Ｄ' => Some(vec!['D']),
        'Ｅ' => Some(vec!['E']),
        'Ｆ' => Some(vec!['F']),
        'Ｇ' => Some(vec!['G']),
        'Ｈ' => Some(vec!['H']),
        'Ｉ' => Some(vec!['I']),
        'Ｊ' => Some(vec!['J']),
        'Ｋ' => Some(vec!['K']),
        'Ｌ' => Some(vec!['L']),
        'Ｍ' => Some(vec!['M']),
        'Ｎ' => Some(vec!['N']),
        'Ｏ' => Some(vec!['O']),
        'Ｐ' => Some(vec!['P']),
        'Ｑ' => Some(vec!['Q']),
        'Ｒ' => Some(vec!['R']),
        'Ｓ' => Some(vec!['S']),
        'Ｔ' => Some(vec!['T']),
        'Ｕ' => Some(vec!['U']),
        'Ｖ' => Some(vec!['V']),
        'Ｗ' => Some(vec!['W']),
        'Ｘ' => Some(vec!['X']),
        'Ｙ' => Some(vec!['Y']),
        'Ｚ' => Some(vec!['Z']),
        'ａ' => Some(vec!['a']),
        'ｂ' => Some(vec!['b']),
        'ｃ' => Some(vec!['c']),
        'ｄ' => Some(vec!['d']),
        'ｅ' => Some(vec!['e']),
        'ｆ' => Some(vec!['f']),
        'ｇ' => Some(vec!['g']),
        'ｈ' => Some(vec!['h']),
        'ｉ' => Some(vec!['i']),
        'ｊ' => Some(vec!['j']),
        'ｋ' => Some(vec!['k']),
        'ｌ' => Some(vec!['l']),
        'ｍ' => Some(vec!['m']),
        'ｎ' => Some(vec!['n']),
        'ｏ' => Some(vec!['o']),
        'ｐ' => Some(vec!['p']),
        'ｑ' => Some(vec!['q']),
        'ｒ' => Some(vec!['r']),
        'ｓ' => Some(vec!['s']),
        'ｔ' => Some(vec!['t']),
        'ｕ' => Some(vec!['u']),
        'ｖ' => Some(vec!['v']),
        'ｗ' => Some(vec!['w']),
        'ｘ' => Some(vec!['x']),
        'ｙ' => Some(vec!['y']),
        'ｚ' => Some(vec!['z']),
        '０' => Some(vec!['0']),
        '１' => Some(vec!['1']),
        '２' => Some(vec!['2']),
        '３' => Some(vec!['3']),
        '４' => Some(vec!['4']),
        '５' => Some(vec!['5']),
        '６' => Some(vec!['6']),
        '７' => Some(vec!['7']),
        '８' => Some(vec!['8']),
        '９' => Some(vec!['9']),
        _ => None,
    }
}

/// Kana to Romaji: the entries with two-character Hiragana (or symbol) keys.
#[verifier::opaque]
pub open spec fn kana_romaji2(a: char, b: char) -> Option<Seq<char>> {
    match (a, b) {
        ('ゔ', 'ぁ') => Some(seq!['v', 'a']),
        ('ゔ', 'ぃ') => Some(seq!['v', 'i']),
        ('ゔ', 'ぇ') => Some(seq!['v', 'e']),
        ('ゔ', 'ぉ') => Some(seq!['v', 'o']),
        ('き', 'ゃ') => Some(seq!['k', 'y', 'a']),
        ('き', 'ぃ') => Some(seq!['k', 'y', 'i']),
        ('き', 'ゅ') => Some(seq!['k', 'y', 'u']),
        ('ぎ', 'ゃ') => Some(seq!['g', 'y', 'a']),
        ('ぎ', 'ぃ') => Some(seq!['g', 'y', 'i']),
        ('ぎ', 'ゅ') => Some(seq!['g', 'y', 'u']),
        ('ぎ', 'ぇ') => Some(seq!['g', 'y', 'e']),
        ('ぎ', 'ょ') => Some(seq!['g', 'y', 'o']),
        ('し', 'ゃ') => Some(seq!['s', 'h', 'a']),
        ('し', 'ゅ') => Some(seq!['s', 'h', 'u']),
        ('し', 'ょ') => Some(seq!['s', 'h', 'o']),
        ('じ', 'ゃ') => Some(seq!['j', 'a']),
        ('じ', 'ゅ') => Some(seq!['j', 'u']),
        ('じ', 'ょ') => Some(seq!['j', 'o']),
        ('ち', 'ゃ') => Some(seq!['c', 'h', 'a']),
        ('ち', 'ゅ') => Some(seq!['c', 'h', 'u']),
        ('ち', 'ょ') => Some(seq!['c', 'h', 'o']),
        ('に', 'ゃ') => Some(seq!['n', 'y', 'a']),
        ('に', 'ゅ') => Some(seq!['n', 'y', 'u']),
        ('に', 'ょ') => Some(seq!['n', 'y', 'o']),
        ('ひ', 'ゃ') => Some(seq!['h', 'y', 'a']),
        ('ひ', 'ゅ') => Some(seq!['h', 'y', 'u']),
        ('ひ', 'ょ') => Some(seq!['h', 'y', 'o']),
        ('ふ', 'ぁ') => Some(seq!['f', 'a']),
        ('ふ', 'ぃ') => Some(seq!['f', 'i']),
        ('ふ', 'ぇ') => Some(seq!['f', 'e']),
        ('ふ', 'ぉ') => Some(seq!['f', 'o']),
        ('び', 'ゃ') => Some(seq!['b', 'y', 'a']),
        ('び', 'ゅ') => Some(seq!['b', 'y', 'u']),
        ('び', 'ょ') => Some(seq!['b', 'y', 'o']),
        ('ぴ', 'ゃ') => Some(seq!['p', 'y', 'a']),
        ('ぴ', 'ゅ') => Some(seq!['p', 'y', 'u']),
        ('ぴ', 'ょ') => Some(seq!['p', 'y', 'o']),
        ('み', 'ゃ') => Some(seq!['m', 'y', 'a']),
        ('み', 'ゅ') => Some(seq!['m', 'y', 'u']),
        ('み', 'ょ') => Some(seq!['m', 'y', 'o']),
        ('り', 'ゃ') => Some(seq!['r', 'y', 'a']),
        ('り', 'ゅ') => Some(seq!['r', 'y', 'u']),
        ('り', 'ょ') => Some(seq!['r', 'y', 'o']),
        ('き', 'ぇ') => Some(seq!['k', 'y', 'e']),
        ('き', 'ょ') => Some(seq!['k', 'y', 'o']),
        ('じ', 'ぃ') => Some(seq!['j', 'y', 'i']),
        ('じ', 'ぇ') => Some(seq!['j', 'y', 'e']),
        ('ち', 'ぃ') => Some(seq!['c', 'y', 'i']),
        ('ち', 'ぇ') => Some(seq!['c', 'h', 'e']),
        ('ひ', 'ぃ') => Some(seq!['h', 'y', 'i']),
        ('ひ', 'ぇ') => Some(seq!['h', 'y', 'e']),
        ('び', 'ぃ') => Some(seq!['b', 'y', 'i']),
        ('び', 'ぇ') => Some(seq!['b', 'y', 'e']),
        ('ぴ', 'ぃ') => Some(seq!['p', 'y', 'i']),
        ('ぴ', 'ぇ') => Some(seq!['p', 'y', 'e']),
        ('み', 'ぇ') => Some(seq!['m', 'y', 'e']),
        ('み', 'ぃ') => Some(seq!['m', 'y', 'i']),
        ('り', 'ぃ') => Some(seq!['r', 'y', 'i']),
        ('り', 'ぇ') => Some(seq!['r', 'y', 'e']),
        ('に', 'ぃ') => Some(seq!['n', 'y', 'i']),
        ('に', 'ぇ') => Some(seq!['n', 'y', 'e']),
        ('し', 'ぃ') => Some(seq!['s', 'y', 'i']),
        ('し', 'ぇ') => Some(seq!['s', 'h', 'e']),
        ('い', 'ぇ') => Some(seq!['y', 'e']),
        ('う', 'ぁ') => Some(seq!['w', 'h', 'a']),
        ('う', 'ぉ') => Some(seq!['w', 'h', 'o']),
        ('う', 'ぃ') => Some(seq!['w', 'i']),
        ('う', 'ぇ') => Some(seq!['w', 'e']),
        ('ゔ', 'ゃ') => Some(seq!['v', 'y', 'a']),
        ('ゔ', 'ゅ') => Some(seq!['v', 'y', 'u']),
        ('ゔ', 'ょ') => Some(seq!['v', 'y', 'o']),
        ('す', 'ぁ') => Some(seq!['s', 'w', 'a']),
        ('す', 'ぃ') => Some(seq!['s', 'w', 'i']),
        ('す', 'ぅ') => Some(seq!['s', 'w', 'u']),
        ('す', 'ぇ') => Some(seq!['s', 'w', 'e']),
        ('す', 'ぉ') => Some(seq!['s', 'w', 'o']),
        ('く', 'ゃ') => Some(seq!['q', 'y', 'a']),
        ('く', 'ゅ') => Some(seq!['q', 'y', 'u']),
        ('く', 'ょ') => Some(seq!['q', 'y', 'o']),
        ('く', 'ぁ') => Some(seq!['q', 'w', 'a']),
        ('く', 'ぃ') => Some(seq!['q', 'w', 'i']),
        ('く', 'ぅ') => Some(seq!['q', 'w', 'u']),
        ('く', 'ぇ') => Some(seq!['q', 'w', 'e']),
        ('く', 'ぉ') => Some(seq!['q', 'w', 'o']),
        ('ぐ', 'ぁ') => Some(seq!['g', 'w', 'a']),
        ('ぐ', 'ぃ') => Some(seq!['g', 'w', 'i']),
        ('ぐ', 'ぅ') => Some(seq!['g', 'w', 'u']),
        ('ぐ', 'ぇ') => Some(seq!['g', 'w', 'e']),
        ('ぐ', 'ぉ') => Some(seq!['g', 'w', 'o']),
        ('つ', 'ぁ') => Some(seq!['t', 's', 'a']),
        ('つ', 'ぃ') => Some(seq!['t', 's', 'i']),
        ('つ', 'ぇ') => Some(seq!['t', 's', 'e']),
        ('つ', 'ぉ') => Some(seq!['t', 's', 'o']),
        ('て', 'ゃ') => Some(seq!['t', 'h', 'a']),
        ('て', 'ぃ') => Some(seq!['t', 'h', 'i']),
        ('て', 'ゅ') => Some(seq!['t', 'h', 'u']),
        ('て', 'ぇ') => Some(seq!['t', 'h', 'e']),
        ('て', 'ょ') => Some(seq!['t', 'h', 'o']),
        ('と', 'ぁ') => Some(seq!['t', 'w', 'a']),
        ('と', 'ぃ') => Some(seq!['t', 'w', 'i']),
        ('と', 'ぅ') => Some(seq!['t', 'w', 'u']),
        ('と', 'ぇ') => Some(seq!['t', 'w', 'e']),
        ('と', 'ぉ') => Some(seq!['t', 'w', 'o']),
        ('ぢ', 'ゃ') => Some(seq!['d', 'y', 'a']),
        ('ぢ', 'ぃ') => Some(seq!['d', 'y', 'i']),
        ('ぢ', 'ゅ') => Some(seq!['d', 'y', 'u']),
        ('ぢ', 'ぇ') => Some(seq!['d', 'y', 'e']),
        ('ぢ', 'ょ') => Some(seq!['d', 'y', 'o']),
        ('で', 'ゃ') => Some(seq!['d', 'h', 'a']),
        ('で', 'ぃ') => Some(seq!['d', 'h', 'i']),
        ('で', 'ゅ') => Some(seq!['d', 'h', 'u']),
        ('で', 'ぇ') => Some(seq!['d', 'h', 'e']),
        ('で', 'ょ') => Some(seq!['d', 'h', 'o']),
        ('ど', 'ぁ') => Some(seq!['d', 'w', 'a']),
        ('ど', 'ぃ') => Some(seq!['d', 'w', 'i']),
        ('ど', 'ぅ') => Some(seq!['d', 'w', 'u']),
        ('ど', 'ぇ') => Some(seq!['d', 'w', 'e']),
        ('ど', 'ぉ') => Some(seq!['d', 'w', 'o']),
        ('ふ', 'ぅ') => Some(seq!['f', 'w', 'u']),
        ('ふ', 'ゃ') => Some(seq!['f', 'y', 'a']),
        ('ふ', 'ゅ') => Some(seq!['f', 'y', 'u']),
        ('ふ', 'ょ') => Some(seq!['f', 'y', 'o']),
        ('ん', 'あ') => Some(seq!['n', '\'', 'a']),
        ('ん', 'い') => Some(seq!['n', '\'', 'i']),
        ('ん', 'う') => Some(seq!['n', '\'', 'u']),
        ('ん', 'え') => Some(seq!['n', '\'', 'e']),
        ('ん', 'お') => Some(seq!['n', '\'', 'o']),
        ('ん', 'や') => Some(seq!['n', '\'', 'y', 'a']),
        ('ん', 'ゆ') => Some(seq!['n', '\'', 'y', 'u']),
        ('ん', 'よ') => Some(seq!['n', '\'', 'y', 'o']),
        ('あ', 'ー') => Some(seq!['ā']),
        ('い', 'ー') => Some(seq!['ī']),
        ('う', 'ー') => Some(seq!['ū']),
        ('え', 'ー') => Some(seq!['ē']),
        ('お', 'ー') => Some(seq!['ō']),
        _ => None,
    }
}

fn find_kana_romaji2(a: char, b: char) -> (r: Option<Vec<char>>)
    ensures
        seq_opt(r) == kana_romaji2(a, b),
{
    proof {
        reveal(kana_romaji2);
    }
    match (a, b) {
        ('ゔ', 'ぁ') => Some(vec!['v', 'a']),
        ('ゔ', 'ぃ') => Some(vec!['v', 'i']),
        ('ゔ', 'ぇ') => Some(vec!['v', 'e']),
        ('ゔ', 'ぉ') => Some(vec!['v', 'o']),
        ('き', 'ゃ') => Some(vec!['k', 'y', 'a']),
        ('き', 'ぃ') => Some(vec!['k', 'y', 'i']),
        ('き', 'ゅ') => Some(vec!['k', 'y', 'u']),
        ('ぎ', 'ゃ') => Some(vec!['g', 'y', 'a']),
        ('ぎ', 'ぃ') => Some(vec!['g', 'y', 'i']),
        ('ぎ', 'ゅ') => Some(vec!['g', 'y', 'u']),
        ('ぎ', 'ぇ') => Some(vec!['g', 'y', 'e']),
        ('ぎ', 'ょ') => Some(vec!['g', 'y', 'o']),
        ('し', 'ゃ') => Some(vec!['s', 'h', 'a']),
        ('し', 'ゅ') => Some(vec!['s', 'h', 'u']),
        ('し', 'ょ') => Some(vec!['s', 'h', 'o']),
        ('じ', 'ゃ') => Some(vec!['j', 'a']),
        ('じ', 'ゅ') => Some(vec!['j', 'u']),
        ('じ', 'ょ') => Some(vec!['j', 'o']),
        ('ち', 'ゃ') => Some(vec!['c', 'h', 'a']),
        ('ち', 'ゅ') => Some(vec!['c', 'h', 'u']),
        ('ち', 'ょ') => Some(vec!['c', 'h', 'o']),
        ('に', 'ゃ') => Some(vec!['n', 'y', 'a']),
        ('に', 'ゅ') => Some(vec!['n', 'y', 'u']),
        ('に', 'ょ') => Some(vec!['n', 'y', 'o']),
        ('ひ', 'ゃ') => Some(vec!['h', 'y', 'a']),
        ('ひ', 'ゅ') => Some(vec!['h', 'y', 'u']),
        ('ひ', 'ょ') => Some(vec!['h', 'y', 'o']),
        ('ふ', 'ぁ') => Some(vec!['f', 'a']),
        ('ふ', 'ぃ') => Some(vec!['f', 'i']),
        ('ふ', 'ぇ') => Some(vec!['f', 'e']),
        ('ふ', 'ぉ') => Some(vec!['f', 'o']),
        ('び', 'ゃ') => Some(vec!['b', 'y', 'a']),
        ('び', 'ゅ') => Some(vec!['b', 'y', 'u']),
        ('び', 'ょ') => Some(vec!['b', 'y', 'o']),
        ('ぴ', 'ゃ') => Some(vec!['p', 'y', 'a']),
        ('ぴ', 'ゅ') => Some(vec!['p', 'y', 'u']),
        ('ぴ', 'ょ') => Some(vec!['p', 'y', 'o']),
        ('み', 'ゃ') => Some(vec!['m', 'y', 'a']),
        ('み', 'ゅ') => Some(vec!['m', 'y', 'u']),
        ('み', 'ょ') => Some(vec!['m', 'y', 'o']),
        ('り', 'ゃ') => Some(vec!['r', 'y', 'a']),
        ('り', 'ゅ') => Some(vec!['r', 'y', 'u']),
        ('り', 'ょ') => Some(vec!['r', 'y', 'o']),
        ('き', 'ぇ') => Some(vec!['k', 'y', 'e']),
        ('き', 'ょ') => Some(vec!['k', 'y', 'o']),
        ('じ', 'ぃ') => Some(vec!['j', 'y', 'i']),
        ('じ', 'ぇ') => Some(vec!['j', 'y', 'e']),
        ('ち', 'ぃ') => Some(vec!['c', 'y', 'i']),
        ('ち', 'ぇ') => Some(vec!['c', 'h', 'e']),
        ('ひ', 'ぃ') => Some(vec!['h', 'y', 'i']),
        ('ひ', 'ぇ') => Some(vec!['h', 'y', 'e']),
        ('び', 'ぃ') => Some(vec!['b', 'y', 'i']),
        ('び', 'ぇ') => Some(vec!['b', 'y', 'e']),
        ('ぴ', 'ぃ') => Some(vec!['p', 'y', 'i']),
        ('ぴ', 'ぇ') => Some(vec!['p', 'y', 'e']),
        ('み', 'ぇ') => Some(vec!['m', 'y', 'e']),
        ('み', 'ぃ') => Some(vec!['m', 'y', 'i']),
        ('り', 'ぃ') => Some(vec!['r', 'y', 'i']),
        ('り', 'ぇ') => Some(vec!['r', 'y', 'e']),
        ('に', 'ぃ') => Some(vec!['n', 'y', 'i']),
        ('に', 'ぇ') => Some(vec!['n', 'y', 'e']),
        ('し', 'ぃ') => Some(vec!['s', 'y', 'i']),
        ('し', 'ぇ') => Some(vec!['s', 'h', 'e']),
        ('い', 'ぇ') => Some(vec!['y', 'e']),
        ('う', 'ぁ') => Some(vec!['w', 'h', 'a']),
        ('う', 'ぉ') => Some(vec!['w', 'h', 'o']),
        ('う', 'ぃ') => Some(vec!['w', 'i']),
        ('う', 'ぇ') => Some(vec!['w', 'e']),
        ('ゔ', 'ゃ') => Some(vec!['v', 'y', 'a']),
        ('ゔ', 'ゅ') => Some(vec!['v', 'y', 'u']),
        ('ゔ', 'ょ') => Some(vec!['v', 'y', 'o']),
        ('す', 'ぁ') => Some(vec!['s', 'w', 'a']),
        ('す', 'ぃ') => Some(vec!['s', 'w', 'i']),
        ('す', 'ぅ') => Some(vec!['s', 'w', 'u']),
        ('す', 'ぇ') => Some(vec!['s', 'w', 'e']),
        ('す', 'ぉ') => Some(vec!['s', 'w', 'o']),
        ('く', 'ゃ') => Some(vec!['q', 'y', 'a']),
        ('く', 'ゅ') => Some(vec!['q', 'y', 'u']),
        ('く', 'ょ') => Some(vec!['q', 'y', 'o']),
        ('く', 'ぁ') => Some(vec!['q', 'w', 'a']),
        ('く', 'ぃ') => Some(vec!['q', 'w', 'i']),
        ('く', 'ぅ') => Some(vec!['q', 'w', 'u']),
        ('く', 'ぇ') => Some(vec!['q', 'w', 'e']),
        ('く', 'ぉ') => Some(vec!['q', 'w', 'o']),
        ('ぐ', 'ぁ') => Some(vec!['g', 'w', 'a']),
        ('ぐ', 'ぃ') => Some(vec!['g', 'w', 'i']),
        ('ぐ', 'ぅ') => Some(vec!['g', 'w', 'u']),
        ('ぐ', 'ぇ') => Some(vec!['g', 'w', 'e']),
        ('ぐ', 'ぉ') => Some(vec!['g', 'w', 'o']),
        ('つ', 'ぁ') => Some(vec!['t', 's', 'a']),
        ('つ', 'ぃ') => Some(vec!['t', 's', 'i']),
        ('つ', 'ぇ') => Some(vec!['t', 's', 'e']),
        ('つ', 'ぉ') => Some(vec!['t', 's', 'o']),
        ('て', 'ゃ') => Some(vec!['t', 'h', 'a']),
        ('て', 'ぃ') => Some(vec!['t', 'h', 'i']),
        ('て', 'ゅ') => Some(vec!['t', 'h', 'u']),
        ('て', 'ぇ') => Some(vec!['t', 'h', 'e']),
        ('て', 'ょ') => Some(vec!['t', 'h', 'o']),
        ('と', 'ぁ') => Some(vec!['t', 'w', 'a']),
        ('と', 'ぃ') => Some(vec!['t', 'w', 'i']),
        ('と', 'ぅ') => Some(vec!['t', 'w', 'u']),
        ('と', 'ぇ') => Some(vec!['t', 'w', 'e']),
        ('と', 'ぉ') => Some(vec!['t', 'w', 'o']),
        ('ぢ', 'ゃ') => Some(vec!['d', 'y', 'a']),
        ('ぢ', 'ぃ') => Some(vec!['d', 'y', 'i']),
        ('ぢ', 'ゅ') => Some(vec!['d', 'y', 'u']),
        ('ぢ', 'ぇ') => Some(vec!['d', 'y', 'e']),
        ('ぢ', 'ょ') => Some(vec!['d', 'y', 'o']),
        ('で', 'ゃ') => Some(vec!['d', 'h', 'a']),
        ('で', 'ぃ') => Some(vec!['d', 'h', 'i']),
        ('で', 'ゅ') => Some(vec!['d', 'h', 'u']),
        ('で', 'ぇ') => Some(vec!['d', 'h', 'e']),
        ('で', 'ょ') => Some(vec!['d', 'h', 'o']),
        ('ど', 'ぁ') => Some(vec!['d', 'w', 'a']),
        ('ど', 'ぃ') => Some(vec!['d', 'w', 'i']),
        ('ど', 'ぅ') => Some(vec!['d', 'w', 'u']),
        ('ど', 'ぇ') => Some(vec!['d', 'w', 'e']),
        ('ど', 'ぉ') => Some(vec!['d', 'w', 'o']),
        ('ふ', 'ぅ') => Some(vec!['f', 'w', 'u']),
        ('ふ', 'ゃ') => Some(vec!['f', 'y', 'a']),
        ('ふ', 'ゅ') => Some(vec!['f', 'y', 'u']),
        ('ふ', 'ょ') => Some(vec!['f', 'y', 'o']),
        ('ん', 'あ') => Some(vec!['n', '\'', 'a']),
        ('ん', 'い') => Some(vec!['n', '\'', 'i']),
        ('ん', 'う') => Some(vec!['n', '\'', 'u']),
        ('ん', 'え') => Some(vec!['n', '\'', 'e']),
        ('ん', 'お') => Some(vec!['n', '\'', 'o']),
        ('ん', 'や') => Some(vec!['n', '\'', 'y', 'a']),
        ('ん', 'ゆ') => Some(vec!['n', '\'', 'y', 'u']),
        ('ん', 'よ') => Some(vec!['n', '\'', 'y', 'o']),
        ('あ', 'ー') => Some(vec!['ā']),
        ('い', 'ー') => Some(vec!['ī']),
        ('う', 'ー') => Some(vec!['ū']),
        ('え', 'ー') => Some(vec!['ē']),
        ('お', 'ー') => Some(vec!['ō']),
        _ => None,
    }
}

/// Kana to Romaji: the entries with three-character Hiragana (or symbol) keys.
#[verifier::opaque]
pub open spec fn kana_romaji3(a: char, b: char, c: char) -> Option<Seq<char>> {
    match (a, b, c) {
        ('ん', 'う', 'ぁ') => Some(seq!['n', 'w', 'h', 'a']),
        ('ん', 'う', 'ぉ') => Some(seq!['n', 'w', 'h', 'o']),
        ('ん', 'う', 'ぃ') => Some(seq!['n', 'w', 'i']),
        ('ん', 'う', 'ぇ') => Some(seq!['n', 'w', 'e']),
        ('ん', 'い', 'ぇ') => Some(seq!['n', '\'', 'y', 'e']),
        _ => None,
    }
}

fn find_kana_romaji3(a: char, b: char, c: char) -> (r: Option<Vec<char>>)
    ensures
        seq_opt(r) == kana_romaji3(a, b, c),
{
    proof {
        reveal(kana_romaji3);
    }
    match (a, b, c) {
        ('ん', 'う', 'ぁ') => Some(vec!['n', 'w', 'h', 'a']),
        ('ん', 'う', 'ぉ') => Some(vec!['n', 'w', 'h', 'o']),
        ('ん', 'う', 'ぃ') => Some(vec!['n', 'w', 'i']),
        ('ん', 'う', 'ぇ') => Some(vec!['n', 'w', 'e']),
        ('ん', 'い', 'ぇ') => Some(vec!['n', '\'', 'y', 'e']),
        _ => None,
    }
}

/// The Romaji table on its base (lower-case) keys.
pub open spec fn romaji_kana_base(k: Seq<char>) -> Option<Seq<char>> {
    if k.len() == 1 {
        romaji_kana1(k[0])
    } else if k.len() == 2 {
        romaji_kana2(k[0], k[1])
    } else if k.len() == 3 {
        romaji_kana3(k[0], k[1], k[2])
    } else if k.len() == 4 {
        romaji_kana4(k[0], k[1], k[2], k[3])
    } else {
        None
    }
}

/// Lower case of every Latin letter of `k`.
pub open spec fn lower_seq(k: Seq<char>) -> Seq<char> {
    k.map_values(|c: char| latin_lower(c))
}

/// The Romaji to kana table: it holds every upper/lower-case variant of each
/// base key, with the value of that key.
pub open spec fn romaji_kana(k: Seq<char>) -> Option<Seq<char>> {
    romaji_kana_base(lower_seq(k))
}

fn find_romaji_kana_base(k: &[char]) -> (r: Option<Vec<char>>)
    ensures
        seq_opt(r) == romaji_kana_base(k@),
{
    if k.len() == 1 {
        find_romaji_kana1(k[0])
    } else if k.len() == 2 {
        find_romaji_kana2(k[0], k[1])
    } else if k.len() == 3 {
        find_romaji_kana3(k[0], k[1], k[2])
    } else if k.len() == 4 {
        find_romaji_kana4(k[0], k[1], k[2], k[3])
    } else {
        None
    }
}

/// Looks `k` up in the Romaji to kana table.
pub fn find_romaji_kana(k: &[char]) -> (r: Option<Vec<char>>)
    ensures
        seq_opt(r) == romaji_kana(k@),
{
    let mut lowered: Vec<char> = Vec::new();
    let mut i: usize = 0;
    while i < k.len()
        invariant
            i <= k@.len(),
            lowered@ == lower_seq(k@.take(i as int)),
        decreases k@.len() - i,
    {
        lowered.push(latin_to_lower(k[i]));
        i = i + 1;
        assert(lowered@ =~= lower_seq(k@.take(i as int)));
    }
    assert(k@.take(k@.len() as int) =~= k@);
    find_romaji_kana_base(lowered.as_slice())
}

/// The kana table on its base keys (Hiragana and symbols).
pub open spec fn kana_romaji_base(k: Seq<char>) -> Option<Seq<char>> {
    if k.len() == 1 {
        kana_romaji1(k[0])
    } else if k.len() == 2 {
        kana_romaji2(k[0], k[1])
    } else if k.len() == 3 {
        kana_romaji3(k[0], k[1], k[2])
    } else {
        None
    }
}

/// No character of `k` is a Katakana letter with a Hiragana counterpart.
pub open spec fn no_shiftable_katakana(k: Seq<char>) -> bool {
    forall|i: int| 0 <= i < k.len() ==> !is_shiftable_katakana(#[trigger] k[i])
}

/// No character of `k` is a Hiragana letter with a Katakana counterpart.
pub open spec fn no_shiftable_hiragana(k: Seq<char>) -> bool {
    forall|i: int| 0 <= i < k.len() ==> !is_shiftable_hiragana(#[trigger] k[i])
}

/// Hiragana form of every Katakana letter of `k`.
pub open spec fn hira_seq(k: Seq<char>) -> Seq<char> {
    k.map_values(|c: char| kata_to_hira(c))
}

/// The kana to Romaji table: each base key, and the Katakana form of each
/// base key that holds Hiragana, with the value of the base key.
pub open spec fn kana_romaji(k: Seq<char>) -> Option<Seq<char>> {
    if no_shiftable_katakana(k) {
        kana_romaji_base(k)
    } else if no_shiftable_hiragana(k) {
        kana_romaji_base(hira_seq(k))
    } else {
        None
    }
}

fn find_kana_romaji_base(k: &[char]) -> (r: Option<Vec<char>>)
    ensures
        seq_opt(r) == kana_romaji_base(k@),
{
    if k.len() == 1 {
        find_kana_romaji1(k[0])
    } else if k.len() == 2 {
        find_kana_romaji2(k[0], k[1])
    } else if k.len() == 3 {
        find_kana_romaji3(k[0], k[1], k[2])
    } else {
        None
    }
}

/// Looks `k` up in the kana to Romaji table.
pub fn find_kana_romaji(k: &[char]) -> (r: Option<Vec<char>>)
    ensures
        seq_opt(r) == kana_romaji(k@),
{
    let mut any_katakana = false;
    let mut any_hiragana = false;
    let mut hira: Vec<char> = Vec::new();
    let mut i: usize = 0;
    while i < k.len()
        invariant
            i <= k@.len(),
            any_katakana == !no_shiftable_katakana(k@.take(i as int)),
            any_hiragana == !no_shiftable_hiragana(k@.take(i as int)),
            hira@ == hira_seq(k@.take(i as int)),
        decreases k@.len() - i,
    {
        let c = k[i];
        let ghost prev = k@.take(i as int);
        if char_in_range(c, KATAKANA_START, KATAKANA_TO_HIRAGANA_END) {
            any_katakana = true;
        }
        if char_in_range(c, HIRAGANA_START, HIRAGANA_TO_KATAKANA_END) {
            any_hiragana = true;
        }
        hira.push(katakana_to_hiragana(c));
        i = i + 1;
        assert(hira@ =~= hira_seq(k@.take(i as int)));
        assert(k@.take(i as int) =~= prev.push(c));
        assert(no_shiftable_katakana(prev.push(c)) == (no_shiftable_katakana(prev)
            && !is_shiftable_katakana(c))) by {
            assert(prev.push(c)[prev.len() as int] == c);
            assert(forall|j: int| 0 <= j < prev.len() ==> prev.push(c)[j] == prev[j]);
        }
        assert(no_shiftable_hiragana(prev.push(c)) == (no_shiftable_hiragana(prev)
            && !is_shiftable_hiragana(c))) by {
            assert(prev.push(c)[prev.len() as int] == c);
            assert(forall|j: int| 0 <= j < prev.len() ==> prev.push(c)[j] == prev[j]);
        }
    }
    assert(k@.take(k@.len() as int) =~= k@);
    if !any_katakana {
        find_kana_romaji_base(k)
    } else if !any_hiragana {
        find_kana_romaji_base(hira.as_slice())
    } else {
        None
    }
}

/// The values of the Romaji table hold no Latin letter that changes with case.
pub proof fn lemma_romaji_kana_uncased(k: Seq<char>)
    ensures
        romaji_kana_base(k) matches Some(v) ==> uncased(v),
{
    if k.len() == 1 {
        reveal(romaji_kana1);
    } else if k.len() == 2 {
        reveal(romaji_kana2);
    } else if k.len() == 3 {
        reveal(romaji_kana3);
    } else if k.len() == 4 {
        reveal(romaji_kana4);
    }
}

/// No key of the Romaji table is a single Kanji.
pub proof fn lemma_romaji_kana_kanji(c: char)
    requires
        kanji_char(c),
    ensures
        romaji_kana(seq![c]) is None,
{
    reveal(romaji_kana1);
    assert(lower_seq(seq![c]) =~= seq![c]);
}

/// No key of the kana table starts with a Kanji.
pub proof fn lemma_kana_romaji_kanji(k: Seq<char>)
    requires
        k.len() > 0,
        kanji_char(k[0]),
    ensures
        kana_romaji(k) is None,
{
    reveal(kana_romaji1);
    reveal(kana_romaji2);
    reveal(kana_romaji3);
    assert(hira_seq(k)[0] == k[0]);
}

/// `v` is `k` with any of its letters in upper case.
pub open spec fn is_case_variant(v: Seq<char>, k: Seq<char>) -> bool {
    &&& v.len() == k.len()
    &&& forall|i: int| 0 <= i < k.len() ==> #[trigger] v[i] == k[i] || v[i] == latin_upper(k[i])
}

proof fn lemma_romaji_keys_lower(k: Seq<char>)
    requires
        romaji_kana_base(k) is Some,
    ensures
        forall|i: int| 0 <= i < k.len() ==> latin_lower(#[trigger] k[i]) == k[i],
{
    if k.len() == 1 {
        reveal(romaji_kana1);
    } else if k.len() == 2 {
        reveal(romaji_kana2);
    } else if k.len() == 3 {
        reveal(romaji_kana3);
    } else {
        reveal(romaji_kana4);
    }
}

/// Every upper/lower-case variant of a key of the Romaji table is a key too,
/// with the same value.
pub proof fn lemma_romaji_case_variants(k: Seq<char>, v: Seq<char>)
    requires
        romaji_kana_base(k) is Some,
        is_case_variant(v, k),
    ensures
        romaji_kana(v) == romaji_kana_base(k),
{
    lemma_romaji_keys_lower(k);
    assert forall|i: int| 0 <= i < k.len() implies #[trigger] lower_seq(v)[i] == k[i] by {
        let c = k[i];
        vstd::utf8::char_u32_cast(c, c as u32);
        assert(v[i] == c || v[i] == latin_upper(c));
    }
    assert(lower_seq(v) =~= k);
}

/// Katakana form of every Hiragana letter of `k`.
pub open spec fn kata_seq(k: Seq<char>) -> Seq<char> {
    k.map_values(|c: char| hira_to_kata(c))
}

proof fn lemma_kana_keys_plain(k: Seq<char>)
    requires
        kana_romaji_base(k) is Some,
    ensures
        forall|i: int|
            0 <= i < k.len() ==> !is_shiftable_katakana(#[trigger] k[i]) && k[i] != 'ゝ' && k[i]
                != 'ゞ' && k[i] != 'ヽ' && k[i] != 'ヾ',
{
    if k.len() == 1 {
        reveal(kana_romaji1);
    } else if k.len() == 2 {
        reveal(kana_romaji2);
    } else {
        reveal(kana_romaji3);
    }
}

/// Every key of the kana table is a key as written, and so is its Katakana
/// form, both with the value of the key.
pub proof fn lemma_kana_katakana_forms(k: Seq<char>)
    requires
        kana_romaji_base(k) is Some,
    ensures
        kana_romaji(k) == kana_romaji_base(k),
        kana_romaji(kata_seq(k)) == kana_romaji_base(k),
{
    lemma_kana_keys_plain(k);
    let t = kata_seq(k);
    if no_shiftable_hiragana(k) {
        assert(t =~= k);
    } else {
        assert forall|i: int| 0 <= i < t.len() implies !is_shiftable_hiragana(#[trigger] t[i])
            && kata_to_hira(t[i]) == k[i] by {
            let c = k[i];
            vstd::utf8::char_u32_cast(c, c as u32);
            if is_shiftable_hiragana(c) {
                assert(t[i] as u32 == (c as u32) + 0x60);
            }
        }
        let j = choose|j: int| 0 <= j < k.len() && is_shiftable_hiragana(k[j]);
        assert(t[j] as u32 == (k[j] as u32) + 0x60);
        assert(!no_shiftable_katakana(t));
        assert(hira_seq(t) =~= k);
    }
}

/// The characters that can follow the first one in a key of the kana table
/// (in Hiragana form): small and plain vowels, `ya`, `yu`, `yo` and `ー`.
pub open spec fn kana_key_tail(c: char) -> bool {
    c == 'ぁ' || c == 'あ' || c == 'ぃ' || c == 'い' || c == 'ぅ' || c == 'う'
        || c == 'ぇ' || c == 'え' || c == 'ぉ' || c == 'お' || c == 'ゃ' || c == 'や'
        || c == 'ゅ' || c == 'ゆ' || c == 'ょ' || c == 'よ' || c == 'ー'
}

proof fn lemma_kana_base_tail(k: Seq<char>, i: int)
    requires
        kana_romaji_base(k) is Some,
        1 <= i < k.len(),
    ensures
        kana_key_tail(k[i]),
{
    if k.len() == 2 {
        reveal(kana_romaji2);
    } else {
        reveal(kana_romaji3);
    }
}

/// Past its first character, a key of the kana table holds only characters
/// whose Hiragana form is in [`kana_key_tail`].
pub proof fn lemma_kana_key_tail(k: Seq<char>, i: int)
    requires
        kana_romaji(k) is Some,
        1 <= i < k.len(),
    ensures
        kana_key_tail(kata_to_hira(k[i])),
{
    if no_shiftable_katakana(k) {
        lemma_kana_base_tail(k, i);
    } else {
        lemma_kana_base_tail(hira_seq(k), i);
    }
}

proof fn lemma_romaji_base_tail(k: Seq<char>, i: int)
    requires
        romaji_kana_base(k) is Some,
        1 <= i < k.len(),
    ensures
        (k[i] as u32) < 0x80,
{
    if k.len() == 2 {
        reveal(romaji_kana2);
    } else if k.len() == 3 {
        reveal(romaji_kana3);
    } else {
        reveal(romaji_kana4);
    }
}

/// Past its first character, a key of the Romaji table holds only ASCII
/// characters, up to case.
pub proof fn lemma_romaji_key_tail(k: Seq<char>, i: int)
    requires
        romaji_kana(k) is Some,
        1 <= i < k.len(),
    ensures
        (latin_lower(k[i]) as u32) < 0x80,
{
    lemma_romaji_base_tail(lower_seq(k), i);
}

/// A fullwidth digit (`０`-`９`) or Latin letter (`Ａ`-`Ｚ`, `ａ`-`ｚ`).
pub open spec fn fullwidth_latin(c: char) -> bool {
    ('０' <= c && c <= '９') || ('Ａ' <= c && c <= 'Ｚ') || ('ａ' <= c && c <= 'ｚ')
}

/// The ASCII counterpart of a fullwidth character.
pub open spec fn narrow(c: char) -> char {
    ((c as u32) - 0xFEE0) as char
}

/// A fullwidth digit or Latin letter is a key of the kana table, with its ASCII
/// counterpart as the value, and starts no longer key.
pub proof fn lemma_kana_fullwidth(k: Seq<char>)
    requires
        k.len() > 0,
        fullwidth_latin(k[0]),
    ensures
        kana_romaji(k) == if k.len() == 1 {
            Some(seq![narrow(k[0])])
        } else {
            None::<Seq<char>>
        },
{
    reveal(kana_romaji1);
    reveal(kana_romaji2);
    reveal(kana_romaji3);
    let c = k[0];
    vstd::utf8::char_u32_cast(c, c as u32);
    assert(no_shiftable_katakana(k) ==> kana_romaji(k) == kana_romaji_base(k));
    assert(hira_seq(k)[0] == c);
}

/// A character that a value of the Romaji table may hold: a Hiragana letter,
/// Japanese punctuation, a space, or the small Katakana `ヵ` and `ヶ`.
pub open spec fn romaji_value_char(c: char) -> bool {
    ('ぁ' <= c && c <= 'ゖ') || c == ' ' || c == '、' || c == '。' || c == '「' || c == '」' || c == '『'
        || c == '』' || c == '〜' || c == 'ヵ' || c == 'ヶ' || c == '・' || c == 'ー'
        || c == '！' || c == '（' || c == '）' || c == '：' || c == '？' || c == '［'
        || c == '］' || c == '｛' || c == '｝'
}

/// Every character of a value of the Romaji table is a [`romaji_value_char`].
pub proof fn lemma_romaji_value_chars(k: Seq<char>)
    ensures
        romaji_kana_base(k) matches Some(v) ==> forall|i: int|
            0 <= i < v.len() ==> romaji_value_char(#[trigger] v[i]),
{
    if k.len() == 1 {
        reveal(romaji_kana1);
    } else if k.len() == 2 {
        reveal(romaji_kana2);
    } else if k.len() == 3 {
        reveal(romaji_kana3);
    } else if k.len() == 4 {
        reveal(romaji_kana4);
    }
}

/// No character that a value of the Romaji table holds, nor a Hiragana
/// iteration mark, is a Romaji key by itself.
pub proof fn lemma_romaji_value_not_key(c: char)
    requires
        romaji_value_char(c) || c == 'ゝ' || c == 'ゞ',
    ensures
        romaji_kana(seq![c]) is None,
{
    reveal(romaji_kana1);
    assert(lower_seq(seq![c]) =~= seq![c]);
}

} // verus!
