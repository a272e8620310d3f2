//! The character sets that classify Japanese text.
use vstd::prelude::*;

verus! {

/// The prolonged sound mark `ー` and its halfwidth form `ｰ`.
pub open spec fn prolonged_mark(c: char) -> bool {
    c == 'ー' || c == 'ｰ'
}

/// Tests membership in [`prolonged_mark`].
pub fn is_prolonged_mark(c: char) -> (r: bool)
    ensures
        r == prolonged_mark(c),
{
    c == 'ー' || c == 'ｰ'
}

/// Hiragana letters, small ones included (`ぁ`-`ゖ`), the digraph `ゟ`
/// and the archaic `𛀁`.
pub open spec fn hiragana_letter(c: char) -> bool {
    ('ぁ' <= c && c <= 'ゖ') || c == 'ゟ' || c == '\u{1B001}'
}

/// Tests membership in [`hiragana_letter`].
pub fn is_hiragana_letter(c: char) -> (r: bool)
    ensures
        r == hiragana_letter(c),
{
    ('ぁ' <= c && c <= 'ゖ') || c == 'ゟ' || c == '\u{1B001}'
}

/// Full-width Katakana letters (`ァ`-`ヺ`), the small Katakana block
/// (`ㇰ`-`ㇿ`) and the digraph `ヿ`.
pub open spec fn katakana_letter(c: char) -> bool {
    ('ァ' <= c && c <= 'ヺ') || ('ㇰ' <= c && c <= 'ㇿ') || c == 'ヿ'
}

/// Tests membership in [`katakana_letter`].
pub fn is_katakana_letter(c: char) -> (r: bool)
    ensures
        r == katakana_letter(c),
{
    ('ァ' <= c && c <= 'ヺ') || ('ㇰ' <= c && c <= 'ㇿ') || c == 'ヿ'
}

/// Halfwidth Katakana letters (`ｦ`-`ﾝ`), without the halfwidth
/// prolonged sound mark.
pub open spec fn katakana_half_letter(c: char) -> bool {
    ('ｦ' <= c && c <= 'ｯ') || ('ｱ' <= c && c <= 'ﾝ')
}

/// Tests membership in [`katakana_half_letter`].
pub fn is_katakana_half_letter(c: char) -> (r: bool)
    ensures
        r == katakana_half_letter(c),
{
    ('ｦ' <= c && c <= 'ｯ') || ('ｱ' <= c && c <= 'ﾝ')
}

/// Romaji: `A`-`Z`, `a`-`z`, `0`-`9` and the vowels with circumflex or
/// macron.
pub open spec fn romaji_char(c: char) -> bool {
    ('A' <= c && c <= 'Z') || ('a' <= c && c <= 'z') || ('0' <= c && c <= '9')
        || c == 'â' || c == 'ê' || c == 'î' || c == 'ô' || c == 'û' || c == 'Â'
        || c == 'Ê' || c == 'Î' || c == 'Ô' || c == 'Û' || c == 'ā' || c == 'ē'
        || c == 'ī' || c == 'ō' || c == 'ū' || c == 'Ā' || c == 'Ē' || c == 'Ī'
        || c == 'Ō' || c == 'Ū'
}

/// Tests membership in [`romaji_char`].
pub fn is_romaji_char(c: char) -> (r: bool)
    ensures
        r == romaji_char(c),
{
    ('A' <= c && c <= 'Z') || ('a' <= c && c <= 'z') || ('0' <= c && c <= '9')
        || c == 'â' || c == 'ê' || c == 'î' || c == 'ô' || c == 'û' || c == 'Â'
        || c == 'Ê' || c == 'Î' || c == 'Ô' || c == 'Û' || c == 'ā' || c == 'ē'
        || c == 'ī' || c == 'ō' || c == 'ū' || c == 'Ā' || c == 'Ē' || c == 'Ī'
        || c == 'Ō' || c == 'Ū'
}

/// Kanji: the CJK Unified Ideographs (`一`-`龯`) and their extensions A
/// to F.
pub open spec fn kanji_char(c: char) -> bool {
    ('一' <= c && c <= '龯') || ('㐀' <= c && c <= '䶵')
        || ('\u{20000}' <= c && c <= '\u{2A6D6}')
        || ('\u{2A700}' <= c && c <= '\u{2B734}')
        || ('\u{2B740}' <= c && c <= '\u{2B81D}')
        || ('\u{2B820}' <= c && c <= '\u{2CEAF}')
        || ('\u{2CEB0}' <= c && c <= '\u{2EBEF}')
}

/// Tests membership in [`kanji_char`].
pub fn is_kanji_char(c: char) -> (r: bool)
    ensures
        r == kanji_char(c),
{
    ('一' <= c && c <= '龯') || ('㐀' <= c && c <= '䶵')
        || ('\u{20000}' <= c && c <= '\u{2A6D6}')
        || ('\u{2A700}' <= c && c <= '\u{2B734}')
        || ('\u{2B740}' <= c && c <= '\u{2B81D}')
        || ('\u{2B820}' <= c && c <= '\u{2CEAF}')
        || ('\u{2CEB0}' <= c && c <= '\u{2EBEF}')
}

/// ASCII punctuation, space included.
pub open spec fn ascii_punctuation(c: char) -> bool {
    c == ' ' || c == '`' || c == '~' || c == '!' || c == '@' || c == '#' || c == '$'
        || c == '%' || c == '^' || c == '&' || c == '*' || c == '(' || c == ')'
        || c == '-' || c == '_' || c == '=' || c == '+' || c == '[' || c == ']'
        || c == '{' || c == '}' || c == ';' || c == ':' || c == '<' || c == '>'
        || c == ',' || c == '.' || c == '/' || c == '?' || c == '\'' || c == '"'
        || c == '|' || c == '\\'
}

/// Tests membership in [`ascii_punctuation`].
pub fn is_ascii_punctuation(c: char) -> (r: bool)
    ensures
        r == ascii_punctuation(c),
{
    c == ' ' || c == '`' || c == '~' || c == '!' || c == '@' || c == '#' || c == '$'
        || c == '%' || c == '^' || c == '&' || c == '*' || c == '(' || c == ')'
        || c == '-' || c == '_' || c == '=' || c == '+' || c == '[' || c == ']'
        || c == '{' || c == '}' || c == ';' || c == ':' || c == '<' || c == '>'
        || c == ',' || c == '.' || c == '/' || c == '?' || c == '\'' || c == '"'
        || c == '|' || c == '\\'
}

/// Fullwidth digits `０`-`９`.
pub open spec fn roman_digit(c: char) -> bool {
    ('０' <= c && c <= '９')
}

/// Tests membership in [`roman_digit`].
pub fn is_roman_digit(c: char) -> (r: bool)
    ensures
        r == roman_digit(c),
{
    ('０' <= c && c <= '９')
}

/// Fullwidth Latin letters `Ａ`-`Ｚ` and `ａ`-`ｚ`.
pub open spec fn roman_letter(c: char) -> bool {
    ('Ａ' <= c && c <= 'Ｚ') || ('ａ' <= c && c <= 'ｚ')
}

/// Tests membership in [`roman_letter`].
pub fn is_roman_letter(c: char) -> (r: bool)
    ensures
        r == roman_letter(c),
{
    ('Ａ' <= c && c <= 'Ｚ') || ('ａ' <= c && c <= 'ｚ')
}

/// Fullwidth Latin punctuation.
pub open spec fn roman_punctuation(c: char) -> bool {
    ('！' <= c && c <= '／') || ('：' <= c && c <= '＠') || ('［' <= c && c <= '｀')
        || ('｛' <= c && c <= '～')
}

/// Tests membership in [`roman_punctuation`].
pub fn is_roman_punctuation(c: char) -> (r: bool)
    ensures
        r == roman_punctuation(c),
{
    ('！' <= c && c <= '／') || ('：' <= c && c <= '＠') || ('［' <= c && c <= '｀')
        || ('｛' <= c && c <= '～')
}

/// Japanese punctuation, the ideographic space included.
pub open spec fn japanese_punctuation_char(c: char) -> bool {
    ('｟' <= c && c <= '･') || c == '\u{3000}' || c == '、' || c == '。' || c == '〃'
        || c == '〈' || c == '〉' || c == '《' || c == '》' || c == '「' || c == '」'
        || c == '『' || c == '』' || c == '【' || c == '】' || c == '〔' || c == '〕'
        || c == '〖' || c == '〗' || c == '〘' || c == '〙' || c == '〚' || c == '〛'
        || c == '〜' || c == '〝' || c == '〞' || c == '〟' || c == '〰' || c == '〽'
        || c == '゠' || c == '・'
}

/// Tests membership in [`japanese_punctuation_char`].
pub fn is_japanese_punctuation_char(c: char) -> (r: bool)
    ensures
        r == japanese_punctuation_char(c),
{
    ('｟' <= c && c <= '･') || c == '\u{3000}' || c == '、' || c == '。' || c == '〃'
        || c == '〈' || c == '〉' || c == '《' || c == '》' || c == '「' || c == '」'
        || c == '『' || c == '』' || c == '【' || c == '】' || c == '〔' || c == '〕'
        || c == '〖' || c == '〗' || c == '〘' || c == '〙' || c == '〚' || c == '〛'
        || c == '〜' || c == '〝' || c == '〞' || c == '〟' || c == '〰' || c == '〽'
        || c == '゠' || c == '・'
}

/// Japanese marks that act on transliteration: iteration and
/// repetition marks, sound marks.
pub open spec fn japanese_mark_char(c: char) -> bool {
    c == '々' || c == '〆' || c == '〱' || c == '〲' || c == '〳' || c == '〴' || c == '〵'
        || c == '〻' || c == '〼' || c == '゛' || c == '゜' || c == 'ゝ' || c == 'ゞ'
        || c == 'ヽ' || c == 'ヾ'
}

/// Tests membership in [`japanese_mark_char`].
pub fn is_japanese_mark_char(c: char) -> (r: bool)
    ensures
        r == japanese_mark_char(c),
{
    c == '々' || c == '〆' || c == '〱' || c == '〲' || c == '〳' || c == '〴' || c == '〵'
        || c == '〻' || c == '〼' || c == '゛' || c == '゜' || c == 'ゝ' || c == 'ゞ'
        || c == 'ヽ' || c == 'ヾ'
}

/// Japanese symbols of no other category.
pub open spec fn japanese_symbol_char(c: char) -> bool {
    ('￠' <= c && c <= '￮') || ('㈀' <= c && c <= '㋾') || ('㌀' <= c && c <= '㏿')
        || ('⺀' <= c && c <= '⻳') || ('⼀' <= c && c <= '⿕') || c == '〄' || c == '〇'
        || c == '〒' || c == '〓' || c == '〠' || c == '〶' || c == '〷' || c == '〾'
        || c == '〿'
}

/// Tests membership in [`japanese_symbol_char`].
pub fn is_japanese_symbol_char(c: char) -> (r: bool)
    ensures
        r == japanese_symbol_char(c),
{
    ('￠' <= c && c <= '￮') || ('㈀' <= c && c <= '㋾') || ('㌀' <= c && c <= '㏿')
        || ('⺀' <= c && c <= '⻳') || ('⼀' <= c && c <= '⿕') || c == '〄' || c == '〇'
        || c == '〒' || c == '〓' || c == '〠' || c == '〶' || c == '〷' || c == '〾'
        || c == '〿'
}
} // verus!
