//! Laws of the three conversions, proved over their specifications.
use vstd::prelude::*;
use crate::constants::{HIRAGANA_END, HIRAGANA_START};
use crate::kind::{kind_of, CharKind};
use crate::table::{
    fullwidth_latin, kana_key_tail, kana_romaji, lemma_kana_fullwidth, lemma_kana_key_tail,
    lemma_kana_romaji_kanji, lemma_romaji_kana_kanji, lemma_romaji_kana_uncased,
    lemma_romaji_key_tail, lemma_romaji_value_chars, lemma_romaji_value_not_key, lower_seq,
    narrow, romaji_kana, romaji_value_char,
};
use crate::to::{
    geminates, hiragana_lookahead, hiragana_of, hiragana_step, is_iteration_mark, is_small_tsu,
    is_voiced_mark, katakana_of, lemma_hiragana_step_len, lemma_longest_kana_len, longest_kana,
    longest_romaji, repetition, romaji_from, romaji_of, tsu_before, tsu_flush,
};
use crate::util::{
    consonant, converts_to_hiragana, hira_to_kata, in_range, is_ascii_letter,
    is_shiftable_katakana, kata_to_hira, latin_lower, latin_upper, prefix_of, uncased,
};

verus! {

// ---------------------------------------------------------------------------
// Characters that the conversions keep
// ---------------------------------------------------------------------------

/// A character that the conversion to Hiragana writes back as it is: a
/// Hiragana letter, or a character that is no Katakana letter, cannot start a
/// multi-character Romaji key and is no Romaji key by itself.
pub open spec fn kept_by_hiragana(c: char) -> bool {
    ||| in_range(c, HIRAGANA_START, HIRAGANA_END)
    ||| {
        &&& !converts_to_hiragana(c)
        &&& !is_ascii_letter(c)
        &&& c != ':'
        &&& romaji_kana(seq![c]) is None
    }
}

/// A character that no rule and no table entry of any conversion touches.
pub open spec fn unmapped(c: char) -> bool {
    &&& !is_shiftable_katakana(c)
    &&& !in_range(c, HIRAGANA_START, HIRAGANA_END)
    &&& !is_ascii_letter(c)
    &&& c != ':'
    &&& romaji_kana(seq![c]) is None
    &&& !is_small_tsu(c)
    &&& !is_iteration_mark(c)
    &&& forall|k: Seq<char>| k.len() > 0 && k[0] == c ==> #[trigger] kana_romaji(k) is None
}

proof fn lemma_hiragana_of_kept(y: Seq<char>)
    requires
        forall|i: int| 0 <= i < y.len() ==> kept_by_hiragana(#[trigger] y[i]),
    ensures
        hiragana_of(y) == y,
    decreases y.len(),
{
    if y.len() > 0 {
        let c = y[0];
        assert(prefix_of(y, 1) =~= seq![c]);
        assert(longest_romaji(y, 0) is None);
        assert(hiragana_lookahead(c) == 1 || in_range(c, HIRAGANA_START, HIRAGANA_END));
        assert(hiragana_step(y) == (seq![c], 1nat));
        assert forall|i: int| 0 <= i < y.skip(1).len() implies kept_by_hiragana(
            #[trigger] y.skip(1)[i],
        ) by {
            assert(y.skip(1)[i] == y[i + 1]);
        }
        lemma_hiragana_of_kept(y.skip(1));
        assert(seq![c] + y.skip(1) =~= y);
    }
}

/// Idempotence: converting to Hiragana a second time changes nothing, for
/// any text whose conversion holds only Hiragana letters and characters that
/// the conversion keeps (no Romaji remnant, no Katakana).
pub proof fn lemma_hiragana_idempotent(x: Seq<char>)
    requires
        forall|i: int|
            0 <= i < hiragana_of(x).len() ==> kept_by_hiragana(#[trigger] hiragana_of(x)[i]),
    ensures
        hiragana_of(hiragana_of(x)) == hiragana_of(x),
{
    lemma_hiragana_of_kept(hiragana_of(x));
}

/// A character that marks no Romaji remnant: no ASCII letter, and neither of
/// the small Katakana `ヵ` and `ヶ` that the Romaji table writes.
pub open spec fn settled(c: char) -> bool {
    !is_ascii_letter(c) && c != 'ヵ' && c != 'ヶ'
}

proof fn lemma_longest_romaji_values(s: Seq<char>, len: nat)
    ensures
        longest_romaji(s, len) matches Some((v, n)) ==> forall|i: int|
            0 <= i < v.len() ==> romaji_value_char(#[trigger] v[i]),
    decreases len,
{
    if len > 0 {
        lemma_romaji_value_chars(lower_seq(prefix_of(s, len)));
        lemma_longest_romaji_values(s, (len - 1) as nat);
    }
}

proof fn lemma_longest_romaji_none(s: Seq<char>, len: nat)
    requires
        s.len() > 0,
        len >= 1,
        longest_romaji(s, len) is None,
    ensures
        romaji_kana(seq![s[0]]) is None,
    decreases len,
{
    if len == 1 {
        assert(prefix_of(s, 1) =~= seq![s[0]]);
    } else {
        lemma_longest_romaji_none(s, (len - 1) as nat);
    }
}

proof fn lemma_value_char_kept(c: char)
    requires
        romaji_value_char(c) || c == 'ゝ' || c == 'ゞ',
        settled(c),
    ensures
        kept_by_hiragana(c),
{
    lemma_romaji_value_not_key(c);
}

proof fn lemma_step_output_kept(s: Seq<char>)
    requires
        s.len() > 0,
    ensures
        forall|i: int|
            0 <= i < hiragana_step(s).0.len() ==> #[trigger] settled(hiragana_step(s).0[i])
                ==> kept_by_hiragana(hiragana_step(s).0[i]),
{
    let c = s[0];
    let e = hiragana_step(s).0;
    if converts_to_hiragana(c) {
        let h = kata_to_hira(c);
        if is_shiftable_katakana(c) {
            assert(h as u32 == (c as u32) - 0x60);
        } else {
            lemma_value_char_kept(h);
        }
        assert(e[0] == h);
    } else if in_range(c, HIRAGANA_START, HIRAGANA_END) {
        assert(e[0] == c);
    } else if geminates(s) {
        assert(e[0] == 'っ');
    } else {
        let lk = hiragana_lookahead(c);
        lemma_longest_romaji_values(s, lk);
        match longest_romaji(s, lk) {
            Some((v, n)) => {
                assert forall|i: int| 0 <= i < v.len() && #[trigger] settled(v[i]) implies kept_by_hiragana(v[i]) by {
                    lemma_value_char_kept(v[i]);
                }
            },
            None => {
                lemma_longest_romaji_none(s, lk);
                reveal(crate::table::romaji_kana1);
                assert(lower_seq(seq![':']) =~= seq![':']);
                assert(e[0] == c);
            },
        }
    }
}

proof fn lemma_hiragana_output_kept(x: Seq<char>)
    ensures
        forall|i: int|
            0 <= i < hiragana_of(x).len() ==> #[trigger] settled(hiragana_of(x)[i])
                ==> kept_by_hiragana(hiragana_of(x)[i]),
    decreases x.len(),
{
    if x.len() > 0 {
        lemma_hiragana_step_len(x);
        lemma_step_output_kept(x);
        let (e, n) = hiragana_step(x);
        lemma_hiragana_output_kept(x.skip(n as int));
        let h = hiragana_of(x);
        assert forall|i: int| 0 <= i < h.len() && #[trigger] settled(h[i]) implies kept_by_hiragana(h[i]) by {
            if i < e.len() {
                assert(h[i] == e[i]);
            } else {
                assert(h[i] == hiragana_of(x.skip(n as int))[i - e.len()]);
            }
        }
    }
}

/// Idempotence on fully converted text: where the conversion to Hiragana
/// leaves no Romaji remnant (no ASCII letter, and neither `ヵ` nor `ヶ`),
/// converting a second time changes nothing.
pub proof fn lemma_hiragana_idempotent_settled(x: Seq<char>)
    requires
        forall|i: int| 0 <= i < hiragana_of(x).len() ==> settled(#[trigger] hiragana_of(x)[i]),
    ensures
        hiragana_of(hiragana_of(x)) == hiragana_of(x),
{
    lemma_hiragana_output_kept(x);
    assert forall|i: int| 0 <= i < hiragana_of(x).len() implies kept_by_hiragana(
        #[trigger] hiragana_of(x)[i],
    ) by {
        assert(settled(hiragana_of(x)[i]));
    }
    lemma_hiragana_idempotent(x);
}

// ---------------------------------------------------------------------------
// Katakana round trip
// ---------------------------------------------------------------------------

proof fn lemma_hiragana_of_katakana(k: Seq<char>)
    requires
        forall|i: int| 0 <= i < k.len() ==> is_shiftable_katakana(#[trigger] k[i]),
    ensures
        hiragana_of(k) == k.map_values(|c: char| kata_to_hira(c)),
    decreases k.len(),
{
    if k.len() > 0 {
        assert(hiragana_step(k) == (seq![kata_to_hira(k[0])], 1nat));
        assert forall|i: int| 0 <= i < k.skip(1).len() implies is_shiftable_katakana(
            #[trigger] k.skip(1)[i],
        ) by {
            assert(k.skip(1)[i] == k[i + 1]);
        }
        lemma_hiragana_of_katakana(k.skip(1));
        assert(seq![kata_to_hira(k[0])] + k.skip(1).map_values(|c: char| kata_to_hira(c))
            =~= k.map_values(|c: char| kata_to_hira(c)));
    }
}

/// Round trip on Katakana: full-width Katakana letters up to `ヶ` (the ones
/// with a Hiragana counterpart) come back unchanged from Hiragana.
pub proof fn lemma_katakana_round_trip(k: Seq<char>)
    requires
        forall|i: int| 0 <= i < k.len() ==> is_shiftable_katakana(#[trigger] k[i]),
    ensures
        katakana_of(hiragana_of(k)) == k,
{
    lemma_hiragana_of_katakana(k);
    let h = k.map_values(|c: char| kata_to_hira(c));
    assert forall|i: int| 0 <= i < h.len() implies kept_by_hiragana(#[trigger] h[i]) by {
        assert(h[i] == kata_to_hira(k[i]));
    }
    lemma_hiragana_of_kept(h);
    assert forall|i: int| 0 <= i < k.len() implies hira_to_kata(#[trigger] h[i]) == k[i] by {
        let c = k[i];
        assert(h[i] == kata_to_hira(c));
        assert(kata_to_hira(c) as u32 == (c as u32) - 0x60);
        vstd::utf8::char_u32_cast(c, c as u32);
    }
    assert(katakana_of(h) =~= k);
}

// ---------------------------------------------------------------------------
// Pass-through
// ---------------------------------------------------------------------------

proof fn lemma_longest_kana_none(s: Seq<char>, len: nat)
    requires
        s.len() > 0,
        forall|k: Seq<char>| k.len() > 0 && k[0] == s[0] ==> #[trigger] kana_romaji(k) is None,
    ensures
        longest_kana(s, len) is None,
    decreases len,
{
    if len > 0 {
        assert(prefix_of(s, len)[0] == s[0]);
        lemma_longest_kana_none(s, (len - 1) as nat);
    }
}

proof fn lemma_romaji_from_unmapped(x: Seq<char>, last: Seq<char>)
    requires
        forall|i: int| 0 <= i < x.len() ==> unmapped(#[trigger] x[i]),
    ensures
        romaji_from(x, false, last) == x,
    decreases x.len(),
{
    if x.len() > 0 {
        assert(unmapped(x[0]));
        lemma_longest_kana_none(x, 3);
        assert forall|i: int| 0 <= i < x.skip(1).len() implies unmapped(#[trigger] x.skip(1)[i]) by {
            assert(x.skip(1)[i] == x[i + 1]);
        }
        lemma_romaji_from_unmapped(x.skip(1), last);
        assert(seq![] + seq![x[0]] + x.skip(1) =~= x);
    } else {
        assert(x =~= seq![]);
    }
}

/// Unknown characters pass through: text made only of characters that no
/// rule and no table entry touches is returned unchanged by all three
/// conversions.
pub proof fn lemma_unmapped_preserved(x: Seq<char>)
    requires
        forall|i: int| 0 <= i < x.len() ==> unmapped(#[trigger] x[i]),
    ensures
        hiragana_of(x) == x,
        katakana_of(x) == x,
        romaji_of(x) == x,
{
    assert forall|i: int| 0 <= i < x.len() implies kept_by_hiragana(#[trigger] x[i]) by {
        assert(unmapped(x[i]));
    }
    lemma_hiragana_of_kept(x);
    assert forall|i: int| 0 <= i < x.len() implies hira_to_kata(#[trigger] x[i]) == x[i] by {
        assert(unmapped(x[i]));
    }
    assert(katakana_of(x) =~= x);
    lemma_romaji_from_unmapped(x, seq![]);
}

/// Every Kanji is a character that no conversion touches.
pub proof fn lemma_kanji_unmapped(c: char)
    requires
        kind_of(c) == CharKind::Kanji,
    ensures
        unmapped(c),
{
    lemma_romaji_kana_kanji(c);
    assert forall|k: Seq<char>| k.len() > 0 && k[0] == c implies #[trigger] kana_romaji(k) is None by {
        lemma_kana_romaji_kanji(k);
    }
}

/// Kanji pass through: text made only of characters of kind `Kanji` is
/// returned unchanged by all three conversions.
pub proof fn lemma_kanji_preserved(x: Seq<char>)
    requires
        forall|i: int| 0 <= i < x.len() ==> kind_of(#[trigger] x[i]) == CharKind::Kanji,
    ensures
        hiragana_of(x) == x,
        katakana_of(x) == x,
        romaji_of(x) == x,
{
    assert forall|i: int| 0 <= i < x.len() implies unmapped(#[trigger] x[i]) by {
        lemma_kanji_unmapped(x[i]);
    }
    lemma_unmapped_preserved(x);
}

// ---------------------------------------------------------------------------
// Case invariance
// ---------------------------------------------------------------------------

/// Upper case of every Latin letter of `s` that the Romaji table knows.
pub open spec fn upper_seq(s: Seq<char>) -> Seq<char> {
    s.map_values(|c: char| latin_upper(c))
}

/// No two neighbouring characters of `s` are the same Romaji consonant in
/// different cases (as in `kK`), which doubling would read as one consonant
/// only in one case.
pub open spec fn no_mixed_case_pair(s: Seq<char>) -> bool {
    forall|i: int|
        0 <= i < s.len() - 1 ==> (consonant(#[trigger] s[i], true) && latin_lower(s[i])
            == latin_lower(s[i + 1]) ==> s[i] == s[i + 1])
}

spec fn recase(c: char, up: bool) -> char {
    if up {
        latin_upper(c)
    } else {
        latin_lower(c)
    }
}

spec fn recase_seq(s: Seq<char>, up: bool) -> Seq<char> {
    s.map_values(|c: char| recase(c, up))
}

proof fn lemma_recase_char(c: char, up: bool)
    ensures
        latin_lower(recase(c, up)) == latin_lower(c),
        is_ascii_letter(recase(c, up)) == is_ascii_letter(c),
        (recase(c, up) == ':') == (c == ':'),
        (recase(c, up) == 'n' || recase(c, up) == 'N') == (c == 'n' || c == 'N'),
        consonant(recase(c, up), true) == consonant(c, true),
        converts_to_hiragana(c) ==> recase(c, up) == c,
        in_range(c, HIRAGANA_START, HIRAGANA_END) ==> recase(c, up) == c,
        converts_to_hiragana(recase(c, up)) == converts_to_hiragana(c),
        in_range(recase(c, up), HIRAGANA_START, HIRAGANA_END) == in_range(
            c,
            HIRAGANA_START,
            HIRAGANA_END,
        ),
{
    vstd::utf8::char_u32_cast(c, c as u32);
    if ('A' <= c && c <= 'Z') || ('a' <= c && c <= 'z') {
        assert(recase(c, up) as u32 == c as u32 || recase(c, up) as u32 == c as u32 + 32
            || recase(c, up) as u32 == c as u32 - 32);
    }
}

proof fn lemma_recase_uncased(v: Seq<char>, up: bool)
    requires
        uncased(v),
    ensures
        recase_seq(v, up) == v,
{
    assert(recase_seq(v, up) =~= v);
}

proof fn lemma_recase_longest(s: Seq<char>, up: bool, len: nat)
    ensures
        longest_romaji(recase_seq(s, up), len) == longest_romaji(s, len),
    decreases len,
{
    if len > 0 {
        let p = prefix_of(s, len);
        assert(prefix_of(recase_seq(s, up), len) =~= recase_seq(p, up));
        assert forall|i: int| 0 <= i < p.len() implies #[trigger] latin_lower(
            recase_seq(p, up)[i],
        ) == latin_lower(p[i]) by {
            lemma_recase_char(p[i], up);
        }
        assert(lower_seq(recase_seq(p, up)) =~= lower_seq(p));
        lemma_recase_longest(s, up, (len - 1) as nat);
    }
}

proof fn lemma_longest_romaji_uncased(s: Seq<char>, len: nat)
    ensures
        longest_romaji(s, len) matches Some((v, n)) ==> uncased(v),
    decreases len,
{
    if len > 0 {
        lemma_romaji_kana_uncased(lower_seq(prefix_of(s, len)));
        lemma_longest_romaji_uncased(s, (len - 1) as nat);
    }
}

proof fn lemma_recase_step(s: Seq<char>, up: bool)
    requires
        s.len() > 0,
        no_mixed_case_pair(s),
    ensures
        hiragana_step(recase_seq(s, up)) == (recase_seq(hiragana_step(s).0, up), hiragana_step(
            s,
        ).1),
{
    let r = recase_seq(s, up);
    let c = s[0];
    lemma_recase_char(c, up);
    assert(r[0] == recase(c, up));
    if s.len() >= 2 {
        lemma_recase_char(s[1], up);
        assert(r[1] == recase(s[1], up));
        assert(geminates(r) == geminates(s));
    }
    if converts_to_hiragana(c) {
        let h = kata_to_hira(c);
        if is_shiftable_katakana(c) {
            assert(h as u32 == (c as u32) - 0x60);
        }
        lemma_recase_char(h, up);
        assert(recase_seq(seq![h], up) =~= seq![h]);
    } else if in_range(c, HIRAGANA_START, HIRAGANA_END) {
        assert(recase_seq(seq![c], up) =~= seq![c]);
    } else if geminates(s) {
        assert(recase_seq(seq!['っ'], up) =~= seq!['っ']);
    } else {
        assert(hiragana_lookahead(recase(c, up)) == hiragana_lookahead(c));
        lemma_recase_longest(s, up, hiragana_lookahead(c));
        lemma_longest_romaji_uncased(s, hiragana_lookahead(c));
        match longest_romaji(s, hiragana_lookahead(c)) {
            Some((v, n)) => {
                lemma_recase_uncased(v, up);
            },
            None => {
                assert(recase_seq(seq![c], up) =~= seq![recase(c, up)]);
            },
        }
    }
}

proof fn lemma_recase_hiragana(s: Seq<char>, up: bool)
    requires
        no_mixed_case_pair(s),
    ensures
        hiragana_of(recase_seq(s, up)) == recase_seq(hiragana_of(s), up),
    decreases s.len(),
{
    if s.len() == 0 {
        assert(recase_seq(s, up) =~= seq![]);
        assert(recase_seq(seq![], up) =~= seq![]);
    } else {
        let (e, n) = hiragana_step(s);
        lemma_hiragana_step_len(s);
        lemma_recase_step(s, up);
        let r = recase_seq(s, up);
        assert(r.skip(n as int) =~= recase_seq(s.skip(n as int), up));
        assert(no_mixed_case_pair(s.skip(n as int))) by {
            let t = s.skip(n as int);
            assert forall|i: int| 0 <= i < t.len() - 1 implies (consonant(#[trigger] t[i], true)
                && latin_lower(t[i]) == latin_lower(t[i + 1]) ==> t[i] == t[i + 1]) by {
                assert(s.skip(n as int)[i] == s[i + n]);
                assert(s.skip(n as int)[i + 1] == s[i + n + 1]);
            }
        }
        lemma_recase_hiragana(s.skip(n as int), up);
        assert(recase_seq(e + hiragana_of(s.skip(n as int)), up) =~= recase_seq(e, up)
            + recase_seq(hiragana_of(s.skip(n as int)), up));
    }
}

/// Case invariance, upper case: converting the upper-cased text to Hiragana
/// gives the upper-cased conversion, for any text with no neighbouring pair
/// of one consonant in two cases.
pub proof fn lemma_hiragana_upper(x: Seq<char>)
    requires
        no_mixed_case_pair(x),
    ensures
        hiragana_of(upper_seq(x)) == upper_seq(hiragana_of(x)),
{
    lemma_recase_hiragana(x, true);
    assert(recase_seq(x, true) =~= upper_seq(x));
    assert(recase_seq(hiragana_of(x), true) =~= upper_seq(hiragana_of(x)));
}

/// Case invariance, lower case: converting the lower-cased text to Hiragana
/// gives the lower-cased conversion, for any text with no neighbouring pair
/// of one consonant in two cases.
pub proof fn lemma_hiragana_lower(x: Seq<char>)
    requires
        no_mixed_case_pair(x),
    ensures
        hiragana_of(lower_seq(x)) == lower_seq(hiragana_of(x)),
{
    lemma_recase_hiragana(x, false);
    assert(recase_seq(x, false) =~= lower_seq(x));
    assert(recase_seq(hiragana_of(x), false) =~= lower_seq(hiragana_of(x)));
}

// ---------------------------------------------------------------------------
// Scanning across a boundary
// ---------------------------------------------------------------------------

proof fn lemma_longest_romaji_whole(a: Seq<char>, len: nat)
    requires
        len >= a.len(),
    ensures
        longest_romaji(a, len) == longest_romaji(a, a.len()),
    decreases len,
{
    if len > a.len() {
        assert(prefix_of(a, len) =~= prefix_of(a, a.len()));
        lemma_longest_romaji_whole(a, (len - 1) as nat);
    }
}

proof fn lemma_longest_romaji_cut(a: Seq<char>, r: Seq<char>, len: nat)
    requires
        a.len() > 0,
        r.len() > 0,
        (r[0] as u32) >= 0x80,
    ensures
        longest_romaji(a + r, len) == longest_romaji(a, if len <= a.len() { len } else { a.len() }),
    decreases len,
{
    if len > 0 {
        let s = a + r;
        if len <= a.len() {
            assert(prefix_of(s, len) =~= prefix_of(a, len));
        } else {
            let p = prefix_of(s, len);
            assert(p[a.len() as int] == r[0]);
            if romaji_kana(p) is Some {
                lemma_romaji_key_tail(p, a.len() as int);
            }
        }
        lemma_longest_romaji_cut(a, r, (len - 1) as nat);
    }
}

proof fn lemma_hiragana_split(a: Seq<char>, r: Seq<char>)
    requires
        r.len() > 0,
        (r[0] as u32) >= 0x80,
    ensures
        hiragana_of(a + r) == hiragana_of(a) + hiragana_of(r),
    decreases a.len(),
{
    let s = a + r;
    if a.len() == 0 {
        assert(s =~= r);
        assert(seq![] + hiragana_of(r) =~= hiragana_of(r));
    } else {
        let c = a[0];
        assert(s[0] == c);
        if a.len() >= 2 {
            assert(s[1] == a[1]);
        } else {
            assert(s[1] == r[0]);
        }
        assert(geminates(s) == geminates(a));
        let lk = hiragana_lookahead(c);
        lemma_longest_romaji_cut(a, r, lk);
        if lk >= a.len() {
            lemma_longest_romaji_whole(a, lk);
        }
        assert(hiragana_step(s) == hiragana_step(a));
        lemma_hiragana_step_len(a);
        let (e, n) = hiragana_step(a);
        assert(s.skip(n as int) =~= a.skip(n as int) + r);
        lemma_hiragana_split(a.skip(n as int), r);
        assert(e + (hiragana_of(a.skip(n as int)) + hiragana_of(r)) =~= (e + hiragana_of(
            a.skip(n as int),
        )) + hiragana_of(r));
    }
}

proof fn lemma_longest_kana_whole(a: Seq<char>, len: nat)
    requires
        len >= a.len(),
    ensures
        longest_kana(a, len) == longest_kana(a, a.len()),
    decreases len,
{
    if len > a.len() {
        assert(prefix_of(a, len) =~= prefix_of(a, a.len()));
        lemma_longest_kana_whole(a, (len - 1) as nat);
    }
}

proof fn lemma_longest_kana_cut(a: Seq<char>, r: Seq<char>, len: nat)
    requires
        a.len() > 0,
        r.len() > 0,
        !kana_key_tail(kata_to_hira(r[0])),
    ensures
        longest_kana(a + r, len) == longest_kana(a, if len <= a.len() { len } else { a.len() }),
    decreases len,
{
    if len > 0 {
        let s = a + r;
        if len <= a.len() {
            assert(prefix_of(s, len) =~= prefix_of(a, len));
        } else {
            let p = prefix_of(s, len);
            assert(p[a.len() as int] == r[0]);
            if kana_romaji(p) is Some {
                lemma_kana_key_tail(p, a.len() as int);
            }
        }
        lemma_longest_kana_cut(a, r, (len - 1) as nat);
    }
}

/// What the scan of `s` to Romaji writes before its final flush, with the
/// state it ends in: whether a small tsu is pending, and the last syllable.
spec fn romaji_end(s: Seq<char>, tsu: bool, last: Seq<char>) -> (Seq<char>, bool, Seq<char>)
    decreases s.len(),
{
    if s.len() == 0 {
        (seq![], tsu, last)
    } else {
        let c = s[0];
        if is_small_tsu(c) {
            let e = romaji_end(s.skip(1), true, last);
            (tsu_flush(tsu) + e.0, e.1, e.2)
        } else if is_iteration_mark(c) {
            let r = repetition(last, is_voiced_mark(c));
            if r.len() > 0 {
                let e = romaji_end(s.skip(1), tsu, r);
                (r + e.0, e.1, e.2)
            } else {
                let e = romaji_end(s.skip(1), tsu, last);
                (seq!['?'] + e.0, e.1, e.2)
            }
        } else {
            match longest_kana(s, 3) {
                Some((v, n)) => if 0 < n <= s.len() {
                    let e = romaji_end(s.skip(n as int), false, v);
                    (tsu_before(tsu, v) + v + e.0, e.1, e.2)
                } else {
                    (v, false, v)
                },
                None => {
                    let e = romaji_end(s.skip(1), false, last);
                    (tsu_flush(tsu) + seq![c] + e.0, e.1, e.2)
                },
            }
        }
    }
}

proof fn lemma_romaji_end(s: Seq<char>, tsu: bool, last: Seq<char>)
    ensures
        romaji_from(s, tsu, last) == romaji_end(s, tsu, last).0 + tsu_flush(
            romaji_end(s, tsu, last).1,
        ),
    decreases s.len(),
{
    if s.len() == 0 {
        assert(seq![] + tsu_flush(tsu) =~= tsu_flush(tsu));
    } else {
        let c = s[0];
        if is_small_tsu(c) {
            lemma_romaji_end(s.skip(1), true, last);
        } else if is_iteration_mark(c) {
            let r = repetition(last, is_voiced_mark(c));
            if r.len() > 0 {
                lemma_romaji_end(s.skip(1), tsu, r);
            } else {
                lemma_romaji_end(s.skip(1), tsu, last);
            }
        } else {
            lemma_longest_kana_len(s, 3);
            match longest_kana(s, 3) {
                Some((v, n)) => {
                    lemma_romaji_end(s.skip(n as int), false, v);
                },
                None => {
                    lemma_romaji_end(s.skip(1), false, last);
                },
            }
        }
        let e = romaji_end(s, tsu, last);
        assert(romaji_from(s, tsu, last) =~= e.0 + tsu_flush(e.1));
    }
}

proof fn lemma_romaji_split(a: Seq<char>, r: Seq<char>, tsu: bool, last: Seq<char>)
    requires
        r.len() > 0,
        !kana_key_tail(kata_to_hira(r[0])),
    ensures
        romaji_from(a + r, tsu, last) == romaji_end(a, tsu, last).0 + romaji_from(
            r,
            romaji_end(a, tsu, last).1,
            romaji_end(a, tsu, last).2,
        ),
    decreases a.len(),
{
    let s = a + r;
    if a.len() == 0 {
        assert(s =~= r);
        assert(seq![] + romaji_from(r, tsu, last) =~= romaji_from(r, tsu, last));
    } else {
        let c = a[0];
        assert(s[0] == c);
        assert(s.skip(1) =~= a.skip(1) + r);
        if is_small_tsu(c) {
            lemma_romaji_split(a.skip(1), r, true, last);
        } else if is_iteration_mark(c) {
            let rep = repetition(last, is_voiced_mark(c));
            if rep.len() > 0 {
                lemma_romaji_split(a.skip(1), r, tsu, rep);
            } else {
                lemma_romaji_split(a.skip(1), r, tsu, last);
            }
        } else {
            lemma_longest_kana_cut(a, r, 3);
            if 3 >= a.len() {
                lemma_longest_kana_whole(a, 3);
            }
            lemma_longest_kana_len(a, 3);
            match longest_kana(a, 3) {
                Some((v, n)) => {
                    assert(s.skip(n as int) =~= a.skip(n as int) + r);
                    lemma_romaji_split(a.skip(n as int), r, false, v);
                },
                None => {
                    lemma_romaji_split(a.skip(1), r, false, last);
                },
            }
        }
        let e = romaji_end(a, tsu, last);
        assert(romaji_from(s, tsu, last) =~= e.0 + romaji_from(r, e.1, e.2));
    }
}

proof fn lemma_romaji_last_free(b: Seq<char>, tsu: bool, l1: Seq<char>, l2: Seq<char>)
    requires
        forall|i: int| 0 <= i < b.len() ==> !is_iteration_mark(#[trigger] b[i]),
    ensures
        romaji_from(b, tsu, l1) == romaji_from(b, tsu, l2),
    decreases b.len(),
{
    if b.len() > 0 {
        assert(!is_iteration_mark(b[0]));
        assert forall|i: int| 0 <= i < b.skip(1).len() implies !is_iteration_mark(
            #[trigger] b.skip(1)[i],
        ) by {
            assert(b.skip(1)[i] == b[i + 1]);
        }
        if is_small_tsu(b[0]) {
            lemma_romaji_last_free(b.skip(1), true, l1, l2);
        } else {
            lemma_longest_kana_len(b, 3);
            match longest_kana(b, 3) {
                Some((v, n)) => {},
                None => {
                    lemma_romaji_last_free(b.skip(1), false, l1, l2);
                },
            }
        }
    }
}

// ---------------------------------------------------------------------------
// Trailing small tsu
// ---------------------------------------------------------------------------

/// Trailing small tsu: a small tsu (`っ` or `ッ`) at the end of any text adds
/// exactly one apostrophe to its Romaji.
pub proof fn lemma_trailing_small_tsu(t: Seq<char>, c: char)
    requires
        is_small_tsu(c),
    ensures
        romaji_of(t + seq![c]) == romaji_of(t) + seq!['\''],
{
    assert(kata_to_hira(c) == 'っ');
    lemma_romaji_split(t, seq![c], false, seq![]);
    lemma_romaji_end(t, false, seq![]);
    let e = romaji_end(t, false, seq![]);
    assert(seq![c].skip(1) =~= seq![]);
    assert(romaji_from(seq![], true, e.2) == seq!['\'']);
    assert(romaji_from(seq![c], e.1, e.2) =~= tsu_flush(e.1) + seq!['\'']);
    assert(e.0 + (tsu_flush(e.1) + seq!['\'']) =~= (e.0 + tsu_flush(e.1)) + seq!['\'']);
}

// ---------------------------------------------------------------------------
// Unknown characters between other text
// ---------------------------------------------------------------------------

/// A character that no conversion touches and that no key of either table
/// holds anywhere (an emoji, a Kanji, most symbols).
pub open spec fn foreign(c: char) -> bool {
    &&& unmapped(c)
    &&& (c as u32) >= 0x80
    &&& !kana_key_tail(c)
}

/// Every Kanji is foreign to the tables.
pub proof fn lemma_kanji_foreign(c: char)
    requires
        kind_of(c) == CharKind::Kanji,
    ensures
        foreign(c),
{
    lemma_kanji_unmapped(c);
}

/// Unknown characters are preserved in place: a foreign character between two
/// texts is copied as it is, and each side converts to Hiragana and Katakana
/// as it would alone.
pub proof fn lemma_foreign_between(a: Seq<char>, e: char, b: Seq<char>)
    requires
        foreign(e),
    ensures
        hiragana_of(a + seq![e] + b) == hiragana_of(a) + seq![e] + hiragana_of(b),
        katakana_of(a + seq![e] + b) == katakana_of(a) + seq![e] + katakana_of(b),
{
    let r = seq![e] + b;
    assert(a + seq![e] + b =~= a + r);
    lemma_hiragana_split(a, r);
    assert(r[0] == e);
    assert(prefix_of(r, 1) =~= seq![e]);
    assert(longest_romaji(r, 0) is None);
    assert(hiragana_step(r) == (seq![e], 1nat));
    assert(r.skip(1) =~= b);
    let h = hiragana_of(a) + seq![e] + hiragana_of(b);
    assert(hiragana_of(a + r) =~= h);
    assert(h.map_values(|c: char| hira_to_kata(c)) =~= katakana_of(a) + seq![e] + katakana_of(
        b,
    ));
}

/// Unknown characters are preserved in place in Romaji: a foreign character
/// between two texts is copied as it is (a small tsu pending before it becomes
/// an apostrophe, as at the end of a text), and each side converts as it would
/// alone, where the text after it has no iteration mark to repeat a syllable
/// from before it.
pub proof fn lemma_foreign_between_romaji(a: Seq<char>, e: char, b: Seq<char>)
    requires
        foreign(e),
        forall|i: int| 0 <= i < b.len() ==> !is_iteration_mark(#[trigger] b[i]),
    ensures
        romaji_of(a + seq![e] + b) == romaji_of(a) + seq![e] + romaji_of(b),
{
    let r = seq![e] + b;
    assert(a + seq![e] + b =~= a + r);
    assert(kata_to_hira(e) == e);
    lemma_romaji_split(a, r, false, seq![]);
    lemma_romaji_end(a, false, seq![]);
    let end = romaji_end(a, false, seq![]);
    assert(r[0] == e);
    lemma_longest_kana_none(r, 3);
    assert(r.skip(1) =~= b);
    lemma_romaji_last_free(b, false, end.2, seq![]);
    assert(romaji_from(r, end.1, end.2) == tsu_flush(end.1) + seq![e] + romaji_of(b));
    assert(end.0 + (tsu_flush(end.1) + seq![e] + romaji_of(b)) =~= (end.0 + tsu_flush(end.1))
        + seq![e] + romaji_of(b));
}

// ---------------------------------------------------------------------------
// Fullwidth Latin
// ---------------------------------------------------------------------------

proof fn lemma_longest_kana_fullwidth(s: Seq<char>, len: nat)
    requires
        s.len() > 0,
        fullwidth_latin(s[0]),
        len > 0,
    ensures
        longest_kana(s, len) == Some((seq![narrow(s[0])], 1nat)),
    decreases len,
{
    let p = prefix_of(s, len);
    assert(p[0] == s[0]);
    lemma_kana_fullwidth(p);
    if len == 1 {
        assert(p =~= seq![s[0]]);
    } else if p.len() == 1 {
        assert(p =~= seq![s[0]]);
    } else {
        lemma_longest_kana_fullwidth(s, (len - 1) as nat);
    }
}

proof fn lemma_romaji_from_fullwidth(s: Seq<char>, last: Seq<char>)
    requires
        forall|i: int| 0 <= i < s.len() ==> fullwidth_latin(#[trigger] s[i]),
    ensures
        romaji_from(s, false, last) == s.map_values(|c: char| narrow(c)),
    decreases s.len(),
{
    if s.len() == 0 {
        assert(s.map_values(|c: char| narrow(c)) =~= seq![]);
    } else {
        assert(fullwidth_latin(s[0]));
        lemma_longest_kana_fullwidth(s, 3);
        assert forall|i: int| 0 <= i < s.skip(1).len() implies fullwidth_latin(
            #[trigger] s.skip(1)[i],
        ) by {
            assert(s.skip(1)[i] == s[i + 1]);
        }
        lemma_romaji_from_fullwidth(s.skip(1), seq![narrow(s[0])]);
        assert(seq![] + seq![narrow(s[0])] + s.skip(1).map_values(|c: char| narrow(c))
            =~= s.map_values(|c: char| narrow(c)));
    }
}

/// Fullwidth Latin letters and digits convert to Romaji as their ASCII
/// counterparts, one for one (`ＡＢＣ` gives `ABC`, `０１２` gives `012`).
pub proof fn lemma_fullwidth_romaji(s: Seq<char>)
    requires
        forall|i: int| 0 <= i < s.len() ==> fullwidth_latin(#[trigger] s[i]),
    ensures
        romaji_of(s) == s.map_values(|c: char| narrow(c)),
{
    lemma_romaji_from_fullwidth(s, seq![]);
}

} // verus!
