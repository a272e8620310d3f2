//! Helpers on characters and short Romaji syllables.
use vstd::prelude::*;
use vstd::std_specs::iter::IteratorSpec;
use crate::constants::{
    HIRAGANA_START, HIRAGANA_TO_KATAKANA_END, KATAKANA_START, KATAKANA_TO_HIRAGANA_END,
    KATAKANA_TO_HIRAGANA_OFFSET_SUB,
};

verus! {

/// True when the code point of `c` lies in `start..=end`.
pub open spec fn in_range(c: char, start: u32, end: u32) -> bool {
    start <= (c as u32) && (c as u32) <= end
}

/// Check if the character is in the given range (inclusive).
pub fn char_in_range(c: char, start: u32, end: u32) -> (r: bool)
    ensures
        r == in_range(c, start, end),
{
    let code = c as u32;
    code >= start && code <= end
}

/// The first `n` characters of `s`, or all of `s` when it is shorter.
pub open spec fn prefix_of(s: Seq<char>, n: nat) -> Seq<char> {
    if n <= s.len() {
        s.take(n as int)
    } else {
        s
    }
}

/// Return a prefix of at most `n` characters for the given string.
pub fn get_prefix(s: &[char], n: usize) -> (r: &[char])
    ensures
        r@ == prefix_of(s@, n as nat),
{
    let end = if n < s.len() {
        n
    } else {
        s.len()
    };
    let r = &s[0..end];
    assert(r@ =~= prefix_of(s@, n as nat));
    r
}

/// `A`-`Z` or `a`-`z`.
pub open spec fn is_ascii_letter(c: char) -> bool {
    ('a' <= c && c <= 'z') || ('A' <= c && c <= 'Z')
}

/// A Romaji consonant: an ASCII letter other than a vowel, where `y` counts
/// only when `include_y` is set.
pub open spec fn consonant(c: char, include_y: bool) -> bool {
    &&& is_ascii_letter(c)
    &&& c != 'a' && c != 'e' && c != 'i' && c != 'o' && c != 'u'
    &&& c != 'A' && c != 'E' && c != 'I' && c != 'O' && c != 'U'
    &&& (include_y || (c != 'y' && c != 'Y'))
}

/// Returns true if the character is a Romaji consonant.
pub fn is_consonant(c: char, include_y: bool) -> (r: bool)
    ensures
        r == consonant(c, include_y),
{
    match c {
        'b' | 'c' | 'd' | 'f' | 'g' | 'h' | 'j' | 'k' | 'l' | 'm' => true,
        'B' | 'C' | 'D' | 'F' | 'G' | 'H' | 'J' | 'K' | 'L' | 'M' => true,
        'n' | 'p' | 'q' | 'r' | 's' | 't' | 'v' | 'w' | 'x' | 'z' => true,
        'N' | 'P' | 'Q' | 'R' | 'S' | 'T' | 'V' | 'W' | 'X' | 'Z' => true,
        'y' | 'Y' => include_y,
        _ => false,
    }
}

/// A Hiragana letter with a Katakana counterpart at a fixed offset.
pub open spec fn is_shiftable_hiragana(c: char) -> bool {
    in_range(c, HIRAGANA_START, HIRAGANA_TO_KATAKANA_END)
}

/// A Katakana letter with a Hiragana counterpart at a fixed offset.
pub open spec fn is_shiftable_katakana(c: char) -> bool {
    in_range(c, KATAKANA_START, KATAKANA_TO_HIRAGANA_END)
}

/// Hiragana to Katakana on one character: letters move by the block offset,
/// the two Hiragana iteration marks become the Katakana ones, and any other
/// character stays.
pub open spec fn hira_to_kata(c: char) -> char {
    if is_shiftable_hiragana(c) {
        ((c as u32) + KATAKANA_TO_HIRAGANA_OFFSET_SUB) as char
    } else if c == 'ゝ' {
        'ヽ'
    } else if c == 'ゞ' {
        'ヾ'
    } else {
        c
    }
}

/// A Katakana character that becomes Hiragana by itself: a letter up to `ヶ`
/// or one of the two Katakana iteration marks.
pub open spec fn converts_to_hiragana(c: char) -> bool {
    is_shiftable_katakana(c) || c == 'ヽ' || c == 'ヾ'
}

/// Katakana to Hiragana on one character: letters up to `ヶ` move by the
/// block offset, the two Katakana iteration marks become the Hiragana ones,
/// and any other character stays.
pub open spec fn kata_to_hira(c: char) -> char {
    if is_shiftable_katakana(c) {
        ((c as u32) - KATAKANA_TO_HIRAGANA_OFFSET_SUB) as char
    } else if c == 'ヽ' {
        'ゝ'
    } else if c == 'ヾ' {
        'ゞ'
    } else {
        c
    }
}

/// Relies on `char::from_u32`: it returns the character with the given code
/// when the code is a Unicode scalar value.
#[verifier::external_body]
fn char_from_code(code: u32) -> (r: Option<char>)
    requires
        code <= 0xD7FF || (0xE000 <= code && code <= 0x10FFFF),
    ensures
        r == Some(code as char),
{
    char::from_u32(code)
}

/// Simple conversion of Hiragana to Katakana. Unknown characters just pass
/// through.
pub fn hiragana_to_katakana(c: char) -> (r: char)
    ensures
        r == hira_to_kata(c),
{
    if char_in_range(c, HIRAGANA_START, HIRAGANA_TO_KATAKANA_END) {
        match char_from_code((c as u32) + KATAKANA_TO_HIRAGANA_OFFSET_SUB) {
            Some(k) => k,
            None => c,
        }
    } else {
        match c {
            'ゝ' => 'ヽ',
            'ゞ' => 'ヾ',
            _ => c,
        }
    }
}

/// Simple conversion of Katakana to Hiragana. Unknown characters just pass
/// through.
pub fn katakana_to_hiragana(c: char) -> (r: char)
    ensures
        r == kata_to_hira(c),
{
    if char_in_range(c, KATAKANA_START, KATAKANA_TO_HIRAGANA_END) {
        match char_from_code((c as u32) - KATAKANA_TO_HIRAGANA_OFFSET_SUB) {
            Some(h) => h,
            None => c,
        }
    } else {
        match c {
            'ヽ' => 'ゝ',
            'ヾ' => 'ゞ',
            _ => c,
        }
    }
}

/// Lower case of a Latin letter that the Romaji table knows.
pub open spec fn latin_lower(c: char) -> char {
    if ('A' <= c && c <= 'Z') || c == 'Â' || c == 'Ê' || c == 'Î' || c == 'Ô' || c == 'Û' {
        ((c as u32) + 32) as char
    } else if c == 'Ā' || c == 'Ē' || c == 'Ī' || c == 'Ō' || c == 'Ū' {
        ((c as u32) + 1) as char
    } else {
        c
    }
}

/// No character of `v` is a Latin letter that changes with case.
pub open spec fn uncased(v: Seq<char>) -> bool {
    forall|i: int| 0 <= i < v.len() ==> latin_upper(#[trigger] v[i]) == v[i] && latin_lower(v[i]) == v[i]
}

/// Upper case of a Latin letter that the Romaji table knows.
pub open spec fn latin_upper(c: char) -> char {
    if ('a' <= c && c <= 'z') || c == 'â' || c == 'ê' || c == 'î' || c == 'ô' || c == 'û' {
        ((c as u32) - 32) as char
    } else if c == 'ā' || c == 'ē' || c == 'ī' || c == 'ō' || c == 'ū' {
        ((c as u32) - 1) as char
    } else {
        c
    }
}

/// Lower case of a Latin letter that the Romaji table knows (`A`-`Z` and
/// the upper-case vowels with circumflex or macron); any other character is
/// returned as it is.
pub fn latin_to_lower(c: char) -> (r: char)
    ensures
        r == latin_lower(c),
{
    match c {
        'A' => 'a',
        'B' => 'b',
        'C' => 'c',
        'D' => 'd',
        'E' => 'e',
        'F' => 'f',
        'G' => 'g',
        'H' => 'h',
        'I' => 'i',
        'J' => 'j',
        'K' => 'k',
        'L' => 'l',
        'M' => 'm',
        'N' => 'n',
        'O' => 'o',
        'P' => 'p',
        'Q' => 'q',
        'R' => 'r',
        'S' => 's',
        'T' => 't',
        'U' => 'u',
        'V' => 'v',
        'W' => 'w',
        'X' => 'x',
        'Y' => 'y',
        'Z' => 'z',
        'Â' => 'â',
        'Ê' => 'ê',
        'Î' => 'î',
        'Ô' => 'ô',
        'Û' => 'û',
        'Ā' => 'ā',
        'Ē' => 'ē',
        'Ī' => 'ī',
        'Ō' => 'ō',
        'Ū' => 'ū',
        _ => c,
    }
}

/// Upper case of a Latin letter that the Romaji table knows; any other
/// character is returned as it is.
pub fn latin_to_upper(c: char) -> (r: char)
    ensures
        r == latin_upper(c),
{
    match c {
        'a' => 'A',
        'b' => 'B',
        'c' => 'C',
        'd' => 'D',
        'e' => 'E',
        'f' => 'F',
        'g' => 'G',
        'h' => 'H',
        'i' => 'I',
        'j' => 'J',
        'k' => 'K',
        'l' => 'L',
        'm' => 'M',
        'n' => 'N',
        'o' => 'O',
        'p' => 'P',
        'q' => 'Q',
        'r' => 'R',
        's' => 'S',
        't' => 'T',
        'u' => 'U',
        'v' => 'V',
        'w' => 'W',
        'x' => 'X',
        'y' => 'Y',
        'z' => 'Z',
        'â' => 'Â',
        'ê' => 'Ê',
        'î' => 'Î',
        'ô' => 'Ô',
        'û' => 'Û',
        'ā' => 'Ā',
        'ē' => 'Ē',
        'ī' => 'Ī',
        'ō' => 'Ō',
        'ū' => 'Ū',
        _ => c,
    }
}
/// The voiced form of a Romaji syllable, or the empty sequence when it has
/// none.
pub open spec fn voiced_of(s: Seq<char>) -> Seq<char> {
    if s =~= seq!['k', 'a'] {
        seq!['g', 'a']
    } else if s =~= seq!['k', 'i'] {
        seq!['g', 'i']
    } else if s =~= seq!['k', 'u'] {
        seq!['g', 'u']
    } else if s =~= seq!['k', 'e'] {
        seq!['g', 'e']
    } else if s =~= seq!['k', 'o'] {
        seq!['g', 'o']
    } else if s =~= seq!['s', 'a'] {
        seq!['z', 'a']
    } else if s =~= seq!['s', 'h', 'i'] {
        seq!['j', 'i']
    } else if s =~= seq!['s', 'u'] {
        seq!['z', 'u']
    } else if s =~= seq!['s', 'e'] {
        seq!['z', 'e']
    } else if s =~= seq!['s', 'o'] {
        seq!['z', 'o']
    } else if s =~= seq!['t', 'a'] {
        seq!['d', 'a']
    } else if s =~= seq!['c', 'h', 'i'] {
        seq!['d', 'i']
    } else if s =~= seq!['t', 's', 'u'] {
        seq!['d', 'u']
    } else if s =~= seq!['t', 'e'] {
        seq!['d', 'e']
    } else if s =~= seq!['t', 'o'] {
        seq!['d', 'o']
    } else if s =~= seq!['h', 'a'] {
        seq!['b', 'a']
    } else if s =~= seq!['h', 'i'] {
        seq!['b', 'i']
    } else if s =~= seq!['f', 'u'] {
        seq!['b', 'u']
    } else if s =~= seq!['h', 'e'] {
        seq!['b', 'e']
    } else if s =~= seq!['h', 'o'] {
        seq!['b', 'o']
    } else {
        seq![]
    }
}

/// Converts a romaji syllable to the voiced equivalent; empty when there is
/// none.
pub fn romaji_to_voiced(input: &[char]) -> (r: Vec<char>)
    ensures
        r@ == voiced_of(input@),
{
    if input.len() == 2 && input[0] == 'k' && input[1] == 'a' {
        vec!['g', 'a']
    } else if input.len() == 2 && input[0] == 'k' && input[1] == 'i' {
        vec!['g', 'i']
    } else if input.len() == 2 && input[0] == 'k' && input[1] == 'u' {
        vec!['g', 'u']
    } else if input.len() == 2 && input[0] == 'k' && input[1] == 'e' {
        vec!['g', 'e']
    } else if input.len() == 2 && input[0] == 'k' && input[1] == 'o' {
        vec!['g', 'o']
    } else if input.len() == 2 && input[0] == 's' && input[1] == 'a' {
        vec!['z', 'a']
    } else if input.len() == 3 && input[0] == 's' && input[1] == 'h' && input[2] == 'i' {
        vec!['j', 'i']
    } else if input.len() == 2 && input[0] == 's' && input[1] == 'u' {
        vec!['z', 'u']
    } else if input.len() == 2 && input[0] == 's' && input[1] == 'e' {
        vec!['z', 'e']
    } else if input.len() == 2 && input[0] == 's' && input[1] == 'o' {
        vec!['z', 'o']
    } else if input.len() == 2 && input[0] == 't' && input[1] == 'a' {
        vec!['d', 'a']
    } else if input.len() == 3 && input[0] == 'c' && input[1] == 'h' && input[2] == 'i' {
        vec!['d', 'i']
    } else if input.len() == 3 && input[0] == 't' && input[1] == 's' && input[2] == 'u' {
        vec!['d', 'u']
    } else if input.len() == 2 && input[0] == 't' && input[1] == 'e' {
        vec!['d', 'e']
    } else if input.len() == 2 && input[0] == 't' && input[1] == 'o' {
        vec!['d', 'o']
    } else if input.len() == 2 && input[0] == 'h' && input[1] == 'a' {
        vec!['b', 'a']
    } else if input.len() == 2 && input[0] == 'h' && input[1] == 'i' {
        vec!['b', 'i']
    } else if input.len() == 2 && input[0] == 'f' && input[1] == 'u' {
        vec!['b', 'u']
    } else if input.len() == 2 && input[0] == 'h' && input[1] == 'e' {
        vec!['b', 'e']
    } else if input.len() == 2 && input[0] == 'h' && input[1] == 'o' {
        vec!['b', 'o']
    } else {
        vec![]
    }
}

/// The characters of `s`, in order.
pub fn chars_of(s: &str) -> (r: Vec<char>)
    ensures
        r@ == s@,
{
    let mut it = s.chars();
    let mut v: Vec<char> = Vec::new();
    loop
        invariant
            it.obeys_prophetic_iter_laws(),
            v@ + it.remaining() == s@,
        ensures
            v@ == s@,
        decreases s@.len() - v@.len(),
    {
        match it.next() {
            Some(c) => {
                v.push(c);
            },
            None => {
                assert(v@ + it.remaining() =~= v@);
                break;
            },
        }
    }
    v
}

/// Relies on `String::push`: it appends the character to the string.
#[verifier::external_body]
fn push_char(s: &mut String, c: char)
    ensures
        final(s)@ == old(s)@.push(c),
{
    s.push(c)
}

/// A string that holds the characters of `v`, in order.
pub fn string_of(v: &Vec<char>) -> (r: String)
    ensures
        r@ == v@,
{
    let mut s = String::new();
    let mut i: usize = 0;
    while i < v.len()
        invariant
            i <= v@.len(),
            s@ == v@.take(i as int),
        decreases v@.len() - i,
    {
        push_char(&mut s, v[i]);
        i = i + 1;
        assert(s@ =~= v@.take(i as int));
    }
    assert(v@.take(v@.len() as int) =~= v@);
    s
}

/// Appends the characters of `v` to `out`.
pub fn push_all(out: &mut Vec<char>, v: &Vec<char>)
    ensures
        final(out)@ == old(out)@ + v@,
{
    let mut i: usize = 0;
    while i < v.len()
        invariant
            i <= v@.len(),
            out@ == old(out)@ + v@.take(i as int),
        decreases v@.len() - i,
    {
        out.push(v[i]);
        i = i + 1;
        assert(out@ =~= old(out)@ + v@.take(i as int));
    }
    assert(v@.take(v@.len() as int) =~= v@);
}

} // verus!
