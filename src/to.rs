//! Conversion of text between Hiragana, Katakana and Romaji.
//!
//! Each conversion scans its input from left to right and, at each position,
//! takes the longest table key that matches there.
use vstd::prelude::*;
use crate::constants::{HIRAGANA_END, HIRAGANA_START, KATAKANA_START, KATAKANA_TO_HIRAGANA_END};
use crate::table::{
    find_kana_romaji, find_romaji_kana, kana_romaji, romaji_kana, TO_HIRAGANA_MAX_CHUNK,
    TO_ROMAJI_MAX_CHUNK,
};
use crate::util::{
    char_in_range, chars_of, consonant, converts_to_hiragana, get_prefix, hira_to_kata,
    hiragana_to_katakana, in_range, is_ascii_letter, is_consonant, kata_to_hira,
    katakana_to_hiragana, prefix_of, push_all, romaji_to_voiced, string_of, voiced_of,
};

verus! {

// ---------------------------------------------------------------------------
// Romaji and Katakana to Hiragana
// ---------------------------------------------------------------------------

/// How many characters the Romaji table is tried with at a position that
/// starts with `c`: multi-character keys start with an ASCII letter or `:`.
pub open spec fn hiragana_lookahead(c: char) -> nat {
    if c == ':' || is_ascii_letter(c) {
        TO_HIRAGANA_MAX_CHUNK as nat
    } else {
        1
    }
}

/// The longest prefix of `s`, of at most `len` characters, that the Romaji
/// table holds: its value and its length.
pub open spec fn longest_romaji(s: Seq<char>, len: nat) -> Option<(Seq<char>, nat)>
    decreases len,
{
    if len == 0 {
        None
    } else {
        match romaji_kana(prefix_of(s, len)) {
            Some(v) => Some((v, prefix_of(s, len).len())),
            None => longest_romaji(s, (len - 1) as nat),
        }
    }
}

/// `s` starts with a doubled Romaji consonant other than `n`.
pub open spec fn geminates(s: Seq<char>) -> bool {
    &&& s.len() >= 2
    &&& s[0] == s[1]
    &&& s[0] != 'n' && s[0] != 'N'
    &&& consonant(s[0], true)
}

/// What the conversion to Hiragana writes at the start of the non-empty `s`,
/// and how many characters it consumes there.
pub open spec fn hiragana_step(s: Seq<char>) -> (Seq<char>, nat) {
    let c = s[0];
    if converts_to_hiragana(c) {
        (seq![kata_to_hira(c)], 1)
    } else if in_range(c, HIRAGANA_START, HIRAGANA_END) {
        (seq![c], 1)
    } else if geminates(s) {
        (seq!['っ'], 1)
    } else {
        match longest_romaji(s, hiragana_lookahead(c)) {
            Some((v, n)) => (v, n),
            None => (seq![c], 1),
        }
    }
}

/// The Hiragana form of `s`.
pub open spec fn hiragana_of(s: Seq<char>) -> Seq<char>
    decreases s.len(),
{
    if s.len() == 0 {
        seq![]
    } else {
        let (e, n) = hiragana_step(s);
        if 0 < n <= s.len() {
            e + hiragana_of(s.skip(n as int))
        } else {
            e
        }
    }
}

/// The Katakana form of `s`: its Hiragana form, shifted.
pub open spec fn katakana_of(s: Seq<char>) -> Seq<char> {
    hiragana_of(s).map_values(|c: char| hira_to_kata(c))
}

proof fn lemma_longest_romaji_len(s: Seq<char>, len: nat)
    requires
        s.len() > 0,
    ensures
        longest_romaji(s, len) matches Some((v, n)) ==> 0 < n <= s.len() && n <= len,
    decreases len,
{
    if len > 0 {
        lemma_longest_romaji_len(s, (len - 1) as nat);
    }
}

/// The consumed length of a step lies in `1..=s.len()`.
pub proof fn lemma_hiragana_step_len(s: Seq<char>)
    requires
        s.len() > 0,
    ensures
        0 < hiragana_step(s).1 <= s.len(),
{
    lemma_longest_romaji_len(s, hiragana_lookahead(s[0]));
}

/// Longest match of the Romaji table at the start of `s`, trying at most `max`
/// characters.
fn find_longest_romaji(s: &[char], max: usize) -> (r: Option<(Vec<char>, usize)>)
    ensures
        match r {
            Some((v, n)) => longest_romaji(s@, max as nat) == Some((v@, n as nat)),
            None => longest_romaji(s@, max as nat) is None,
        },
{
    let mut len = max;
    while len > 0
        invariant
            len <= max,
            longest_romaji(s@, max as nat) == longest_romaji(s@, len as nat),
        decreases len,
    {
        let chunk = get_prefix(s, len);
        match find_romaji_kana(chunk) {
            Some(kana) => {
                return Some((kana, chunk.len()));
            },
            None => {},
        }
        len = len - 1;
    }
    None
}

/// Appends what the conversion to Hiragana writes at position `i` of `src`,
/// and returns how many characters it consumes.
fn hiragana_next(src: &[char], i: usize, out: &mut Vec<char>) -> (n: usize)
    requires
        i < src@.len(),
    ensures
        final(out)@ == old(out)@ + hiragana_step(src@.skip(i as int)).0,
        n == hiragana_step(src@.skip(i as int)).1,
{
    let ghost s = src@.skip(i as int);
    let next = src[i];
    assert(s[0] == next);
    if char_in_range(next, KATAKANA_START, KATAKANA_TO_HIRAGANA_END) || next == 'ヽ'
        || next == 'ヾ' {
        out.push(katakana_to_hiragana(next));
        1
    } else if char_in_range(next, HIRAGANA_START, HIRAGANA_END) {
        out.push(next);
        1
    } else if i + 1 < src.len() && src[i + 1] == next && next != 'n' && next != 'N'
        && is_consonant(next, true) {
        assert(s[1] == src@[i + 1]);
        out.push('っ');
        1
    } else {
        assert(!geminates(s)) by {
            if s.len() >= 2 {
                assert(s[1] == src@[i + 1]);
            }
        }
        let max_chunk: usize = if next == ':' || ('a' <= next && next <= 'z') || ('A' <= next
            && next <= 'Z') {
            TO_HIRAGANA_MAX_CHUNK
        } else {
            1
        };
        let rest = &src[i..src.len()];
        assert(rest@ =~= s);
        match find_longest_romaji(rest, max_chunk) {
            Some((kana, n)) => {
                push_all(out, &kana);
                n
            },
            None => {
                out.push(next);
                1
            },
        }
    }
}

/// Converts a character sequence into Hiragana.
pub fn hiragana_chars(src: &[char]) -> (r: Vec<char>)
    ensures
        r@ == hiragana_of(src@),
{
    let mut out: Vec<char> = Vec::new();
    let mut i: usize = 0;
    assert(src@.skip(0) =~= src@);
    while i < src.len()
        invariant
            i <= src@.len(),
            out@ + hiragana_of(src@.skip(i as int)) == hiragana_of(src@),
        decreases src@.len() - i,
    {
        let ghost s = src@.skip(i as int);
        let ghost before = out@;
        proof {
            lemma_hiragana_step_len(s);
        }
        let n = hiragana_next(src, i, &mut out);
        assert(s.skip(n as int) =~= src@.skip(i + n));
        assert(out@ + hiragana_of(src@.skip(i + n)) =~= before + hiragana_of(s));
        i = i + n;
    }
    assert(hiragana_of(src@.skip(i as int)) =~= seq![]);
    assert(out@ + seq![] =~= out@);
    out
}

/// Converts the input string into hiragana. Unknown characters just pass
/// through unchanged.
///
/// Supports mapping romaji and katakana.
pub fn to_hiragana(input: &str) -> (r: String)
    ensures
        r@ == hiragana_of(input@),
{
    let src = chars_of(input);
    let out = hiragana_chars(src.as_slice());
    string_of(&out)
}

/// Converts the input string into katakana. Unknown characters just pass
/// through unchanged.
///
/// Supports mapping romaji and hiragana.
pub fn to_katakana(input: &str) -> (r: String)
    ensures
        r@ == katakana_of(input@),
{
    let src = chars_of(input);
    let hiragana = hiragana_chars(src.as_slice());
    let mut out: Vec<char> = Vec::new();
    let mut i: usize = 0;
    while i < hiragana.len()
        invariant
            i <= hiragana@.len(),
            out@ == hiragana@.take(i as int).map_values(|c: char| hira_to_kata(c)),
        decreases hiragana@.len() - i,
    {
        out.push(hiragana_to_katakana(hiragana[i]));
        i = i + 1;
        assert(out@ =~= hiragana@.take(i as int).map_values(|c: char| hira_to_kata(c)));
    }
    assert(hiragana@.take(i as int) =~= hiragana@);
    string_of(&out)
}

// ---------------------------------------------------------------------------
// Kana to Romaji
// ---------------------------------------------------------------------------

/// The longest prefix of `s`, of at most `len` characters, that the kana
/// table holds: its value and its length.
pub open spec fn longest_kana(s: Seq<char>, len: nat) -> Option<(Seq<char>, nat)>
    decreases len,
{
    if len == 0 {
        None
    } else {
        match kana_romaji(prefix_of(s, len)) {
            Some(v) => Some((v, prefix_of(s, len).len())),
            None => longest_kana(s, (len - 1) as nat),
        }
    }
}

/// The small tsu, in Hiragana or Katakana.
pub open spec fn is_small_tsu(c: char) -> bool {
    c == 'っ' || c == 'ッ'
}

/// An iteration mark, Hiragana or Katakana, voiced or not.
pub open spec fn is_iteration_mark(c: char) -> bool {
    c == 'ヽ' || c == 'ゝ' || c == 'ヾ' || c == 'ゞ'
}

/// A voiced iteration mark.
pub open spec fn is_voiced_mark(c: char) -> bool {
    c == 'ヾ' || c == 'ゞ'
}

/// The part of the last syllable that an iteration mark repeats: the tail of
/// the two digraphs, or the whole syllable.
pub open spec fn repeated_part(last: Seq<char>) -> Seq<char> {
    if last =~= seq!['y', 'o', 'r', 'i'] {
        seq!['r', 'i']
    } else if last =~= seq!['k', 'o', 't', 'o'] {
        seq!['t', 'o']
    } else {
        last
    }
}

/// What an iteration mark writes after `last`: the repeated part, voiced when
/// the mark is voiced and a voiced form exists.
pub open spec fn repetition(last: Seq<char>, voiced: bool) -> Seq<char> {
    let r = repeated_part(last);
    if voiced && voiced_of(r).len() > 0 {
        voiced_of(r)
    } else {
        r
    }
}

/// `v` starts with a consonant that a small tsu can double: any Romaji
/// consonant but `n`.
pub open spec fn starts_doubling(v: Seq<char>) -> bool {
    v.len() > 0 && consonant(v[0], true) && v[0] != 'n' && v[0] != 'N'
}

/// What a pending small tsu turns into before the syllable `v`: the doubled
/// first consonant of `v`, or an apostrophe when `v` starts with a vowel, `n`
/// or no letter.
pub open spec fn tsu_before(tsu: bool, v: Seq<char>) -> Seq<char> {
    if !tsu {
        seq![]
    } else if starts_doubling(v) {
        seq![v[0]]
    } else {
        seq!['\'']
    }
}

/// A pending small tsu that cannot double anything: an apostrophe.
pub open spec fn tsu_flush(tsu: bool) -> Seq<char> {
    if tsu {
        seq!['\'']
    } else {
        seq![]
    }
}

/// The Romaji for `s`, given whether a small tsu is pending (`tsu`) and the
/// last syllable written (`last`).
pub open spec fn romaji_from(s: Seq<char>, tsu: bool, last: Seq<char>) -> Seq<char>
    decreases s.len(),
{
    if s.len() == 0 {
        tsu_flush(tsu)
    } else {
        let c = s[0];
        if is_small_tsu(c) {
            tsu_flush(tsu) + romaji_from(s.skip(1), true, last)
        } else if is_iteration_mark(c) {
            let r = repetition(last, is_voiced_mark(c));
            if r.len() > 0 {
                r + romaji_from(s.skip(1), tsu, r)
            } else {
                seq!['?'] + romaji_from(s.skip(1), tsu, last)
            }
        } else {
            match longest_kana(s, TO_ROMAJI_MAX_CHUNK as nat) {
                Some((v, n)) => if 0 < n <= s.len() {
                    tsu_before(tsu, v) + v + romaji_from(s.skip(n as int), false, v)
                } else {
                    v
                },
                None => tsu_flush(tsu) + seq![c] + romaji_from(s.skip(1), false, last),
            }
        }
    }
}

/// The Romaji form of `s`.
pub open spec fn romaji_of(s: Seq<char>) -> Seq<char> {
    romaji_from(s, false, seq![])
}

/// The length that a match of the kana table consumes lies in `1..=s.len()`.
pub proof fn lemma_longest_kana_len(s: Seq<char>, len: nat)
    requires
        s.len() > 0,
    ensures
        longest_kana(s, len) matches Some((v, n)) ==> 0 < n <= s.len() && n <= len,
    decreases len,
{
    if len > 0 {
        lemma_longest_kana_len(s, (len - 1) as nat);
    }
}

/// Longest match of the kana table at the start of `s`, trying at most `max`
/// characters.
fn find_longest_kana(s: &[char], max: usize) -> (r: Option<(Vec<char>, usize)>)
    ensures
        match r {
            Some((v, n)) => longest_kana(s@, max as nat) == Some((v@, n as nat)),
            None => longest_kana(s@, max as nat) is None,
        },
{
    let mut len = max;
    while len > 0
        invariant
            len <= max,
            longest_kana(s@, max as nat) == longest_kana(s@, len as nat),
        decreases len,
    {
        let chunk = get_prefix(s, len);
        match find_kana_romaji(chunk) {
            Some(romaji) => {
                return Some((romaji, chunk.len()));
            },
            None => {},
        }
        len = len - 1;
    }
    None
}

/// `v` spells exactly the characters of `w`.
fn spells(v: &Vec<char>, w: &[char]) -> (r: bool)
    ensures
        r == (v@ =~= w@),
{
    if v.len() != w.len() {
        return false;
    }
    let mut i: usize = 0;
    while i < v.len()
        invariant
            v@.len() == w@.len(),
            i <= v@.len(),
            forall|j: int| 0 <= j < i ==> v@[j] == w@[j],
        decreases v@.len() - i,
    {
        if v[i] != w[i] {
            return false;
        }
        i = i + 1;
    }
    true
}

/// The syllable that an iteration mark writes after `last`.
fn iterate_syllable(last: &Vec<char>, voiced: bool) -> (r: Vec<char>)
    ensures
        r@ == repetition(last@, voiced),
{
    let mut base: Vec<char> = Vec::new();
    if spells(last, &['y', 'o', 'r', 'i']) {
        base.push('r');
        base.push('i');
        assert(base@ =~= seq!['r', 'i']);
    } else if spells(last, &['k', 'o', 't', 'o']) {
        base.push('t');
        base.push('o');
        assert(base@ =~= seq!['t', 'o']);
    } else {
        push_all(&mut base, last);
        assert(base@ =~= last@);
    }
    if voiced {
        let v = romaji_to_voiced(base.as_slice());
        if v.len() > 0 {
            return v;
        }
    }
    base
}

/// Converts any kana in a character sequence to romaji.
pub fn romaji_chars(src: &[char]) -> (r: Vec<char>)
    ensures
        r@ == romaji_of(src@),
{
    let mut was_small_tsu = false;
    let mut last_romaji: Vec<char> = Vec::new();
    let mut out: Vec<char> = Vec::new();
    let mut i: usize = 0;
    assert(src@.skip(0) =~= src@);
    while i < src.len()
        invariant
            i <= src@.len(),
            out@ + romaji_from(src@.skip(i as int), was_small_tsu, last_romaji@) == romaji_of(
                src@,
            ),
        decreases src@.len() - i,
    {
        let ghost s = src@.skip(i as int);
        let ghost before = out@;
        let ghost tsu0 = was_small_tsu;
        let ghost last0 = last_romaji@;
        let next = src[i];
        assert(s[0] == next);
        let mut skip: usize = 1;
        if next == 'っ' || next == 'ッ' {
            if was_small_tsu {
                out.push('\'');
            }
            was_small_tsu = true;
            assert(out@ =~= before + tsu_flush(tsu0));
        } else if next == 'ヽ' || next == 'ゝ' || next == 'ヾ' || next == 'ゞ' {
            let voiced = next == 'ヾ' || next == 'ゞ';
            let repeat = iterate_syllable(&last_romaji, voiced);
            if repeat.len() > 0 {
                push_all(&mut out, &repeat);
                last_romaji = repeat;
            } else {
                out.push('?');
                assert(out@ =~= before + seq!['?']);
            }
        } else {
            let rest = &src[i..src.len()];
            assert(rest@ =~= s);
            proof {
                lemma_longest_kana_len(s, TO_ROMAJI_MAX_CHUNK as nat);
            }
            match find_longest_kana(rest, TO_ROMAJI_MAX_CHUNK) {
                Some((romaji, n)) => {
                    if was_small_tsu {
                        if romaji.len() > 0 && is_consonant(romaji[0], true) && romaji[0] != 'n'
                            && romaji[0] != 'N' {
                            out.push(romaji[0]);
                        } else {
                            out.push('\'');
                        }
                        was_small_tsu = false;
                    }
                    assert(out@ =~= before + tsu_before(tsu0, romaji@));
                    push_all(&mut out, &romaji);
                    last_romaji = romaji;
                    skip = n;
                },
                None => {
                    if was_small_tsu {
                        out.push('\'');
                        was_small_tsu = false;
                    }
                    out.push(next);
                    assert(out@ =~= before + tsu_flush(tsu0) + seq![next]);
                },
            }
        }
        assert(s.skip(skip as int) =~= src@.skip(i + skip));
        assert(out@ + romaji_from(src@.skip(i + skip), was_small_tsu, last_romaji@) =~= before
            + romaji_from(s, tsu0, last0));
        i = i + skip;
    }
    assert(out@ + tsu_flush(was_small_tsu) =~= romaji_of(src@));
    if was_small_tsu {
        out.push('\'');
    }
    assert(out@ =~= romaji_of(src@));
    out
}

/// Converts any kana in the input to romaji.
///
/// Note that this will pass through interpunct (`・`) marks. Other Japanese
/// punctuation are converted to ASCII variants.
pub fn to_romaji(input: &str) -> (r: String)
    ensures
        r@ == romaji_of(input@),
{
    let src = chars_of(input);
    let out = romaji_chars(src.as_slice());
    string_of(&out)
}

} // verus!
