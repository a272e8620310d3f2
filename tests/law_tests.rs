use kana::util::{
	char_in_range, get_prefix, hiragana_to_katakana, is_consonant, katakana_to_hiragana,
	romaji_to_voiced,
};
use kana::{get_kind, to_hiragana, to_katakana, to_romaji, CharKind};

#[test]
fn empty_input_gives_empty_output() {
	assert_eq!(to_hiragana(""), "");
	assert_eq!(to_katakana(""), "");
	assert_eq!(to_romaji(""), "");
}

#[test]
fn small_tsu_trailing_flush() {
	assert_eq!(to_romaji("っ"), "'");
	assert_eq!(to_romaji("ふっ"), "fu'");
	assert_eq!(to_romaji("ッ"), "'");
	assert_eq!(to_romaji("っっ"), "''");
}

#[test]
fn gemination() {
	assert_eq!(to_hiragana("kakka"), "かっか");
	assert_eq!(to_romaji("かっか"), "kakka");
	assert_eq!(to_katakana("kakka"), "カッカ");
	assert_eq!(to_hiragana("nanna"), "なんな");
}

#[test]
fn iteration_marks() {
	assert_eq!(to_romaji("ヿゝゝ"), "kotototo");
	assert_eq!(to_romaji("ヿゞゞ"), "kotododo");
	assert_eq!(to_romaji("ゟゝ"), "yoriri");
	assert_eq!(to_romaji("かゞ"), "kaga");
}

#[test]
fn iteration_mark_without_syllable() {
	assert_eq!(to_romaji("ゝ"), "?");
	assert_eq!(to_romaji("ゞ"), "?");
	assert_eq!(to_romaji("んゞ"), "nn");
}

#[test]
fn ambiguous_n_disambiguation() {
	assert_eq!(to_romaji("きんにくまん"), "kinnikuman");
	assert_eq!(to_hiragana("kinnikuman"), "きんにくまん");
	assert_eq!(to_hiragana("kin'ya"), "きんや");
	assert_eq!(to_hiragana("kinya"), "きにゃ");
	assert_eq!(to_romaji("きんや"), "kin'ya");
	assert_eq!(to_romaji("きにゃ"), "kinya");
	assert_eq!(to_hiragana("n'a"), "んあ");
	assert_eq!(to_romaji("んあ"), "n'a");
}

#[test]
fn macron_forms_collapse() {
	assert_eq!(to_hiragana("āīūēō"), "あーいーうーえーおー");
	assert_eq!(to_hiragana("âîûêô"), "あーいーうーえーおー");
	assert_eq!(to_hiragana("ĀĪŪĒŌ"), "あーいーうーえーおー");
	assert_eq!(to_romaji("あー"), "ā");
}

#[test]
fn fullwidth_latin_converts() {
	assert_eq!(to_romaji("ＡＢＣ"), "ABC");
	assert_eq!(to_romaji("０１２"), "012");
	assert_eq!(to_romaji("ｘｙｚ"), "xyz");
}

#[test]
fn unmapped_characters_pass_through() {
	for s in ["😀🎌", "★☆", "é", "\u{1F600}x"] {
		assert_eq!(to_hiragana(s), s);
		assert_eq!(to_katakana(s), s);
	}
	assert_eq!(to_romaji("😀★é"), "😀★é");
}

#[test]
fn kanji_pass_through() {
	let s = "漢字日本語𠀀";
	for c in s.chars() {
		assert_eq!(get_kind(c), CharKind::Kanji);
	}
	assert_eq!(to_hiragana(s), s);
	assert_eq!(to_katakana(s), s);
	assert_eq!(to_romaji(s), s);
}

#[test]
fn hiragana_idempotent_on_converted_text() {
	for s in ["kakka", "ワニカニ", "shinbun", "そうしんウィンドウ"] {
		let once = to_hiragana(s);
		assert_eq!(to_hiragana(&once), once);
	}
	// "ヵ" is Katakana in the table's value, so a second pass still changes it.
	assert_eq!(to_hiragana("lka"), "ヵ");
	assert_eq!(to_hiragana(&to_hiragana("lka")), "ゕ");
}

#[test]
fn hiragana_case_invariance() {
	for s in ["kakka", "shinbun", "n'ya", "āō", "ka ki"] {
		assert_eq!(to_hiragana(&s.to_uppercase()), to_hiragana(s).to_uppercase());
		assert_eq!(to_hiragana(&s.to_lowercase()), to_hiragana(s).to_lowercase());
	}
	// One letter in two cases next to each other is no doubled consonant.
	assert_eq!(to_hiragana("kKa"), "kか");
	assert_eq!(to_hiragana("KKA"), "っか");
}

#[test]
fn katakana_round_trip() {
	let k = "カタカナヴヵヶァッ";
	assert_eq!(to_katakana(&to_hiragana(k)), k);
	assert_eq!(to_hiragana(k), "かたかなゔゕゖぁっ");
}

#[test]
fn char_kind_examples() {
	assert_eq!(get_kind('ー'), CharKind::BarLine);
	assert_eq!(get_kind('ゟ'), CharKind::Hiragana);
	assert_eq!(get_kind('ヿ'), CharKind::Katakana);
	assert_eq!(get_kind('â'), CharKind::Romaji);
	assert_eq!(get_kind('😀'), CharKind::Other);
	assert!(kana::is_kana('ー'));
}

#[test]
fn helper_functions() {
	assert!(char_in_range('b', 'a' as u32, 'c' as u32));
	assert!(!char_in_range('d', 'a' as u32, 'c' as u32));
	assert_eq!(get_prefix(&['a', 'b', 'c'], 2), &['a', 'b']);
	assert_eq!(get_prefix(&['a'], 4), &['a']);
	assert!(is_consonant('K', false));
	assert!(!is_consonant('y', false));
	assert!(is_consonant('y', true));
	assert!(!is_consonant('a', true));
	assert_eq!(romaji_to_voiced(&['s', 'h', 'i']), vec!['j', 'i']);
	assert_eq!(romaji_to_voiced(&['n', 'a']), Vec::<char>::new());
}

#[test]
fn code_point_shifts() {
	assert_eq!(hiragana_to_katakana('あ'), 'ア');
	assert_eq!(hiragana_to_katakana('ゖ'), 'ヶ');
	assert_eq!(hiragana_to_katakana('ゝ'), 'ヽ');
	assert_eq!(hiragana_to_katakana('x'), 'x');
	assert_eq!(katakana_to_hiragana('ア'), 'あ');
	assert_eq!(katakana_to_hiragana('ヷ'), 'ヷ');
	assert_eq!(to_katakana("あいう"), "アイウ");
}

#[test]
fn small_tsu_before_n_is_an_apostrophe() {
	assert_eq!(to_romaji("っな"), "'na");
	assert_eq!(to_romaji("ッニ"), "'ni");
	assert_eq!(to_romaji("あっん"), "a'n");
	assert_eq!(to_romaji("っか"), "kka");
}

#[test]
fn trailing_small_tsu_adds_one_apostrophe() {
	for t in ["", "か", "きゃ", "っ", "ん", "abc", "ゝ"] {
		assert_eq!(to_romaji(&format!("{}っ", t)), format!("{}'", to_romaji(t)));
		assert_eq!(to_romaji(&format!("{}ッ", t)), format!("{}'", to_romaji(t)));
	}
}

#[test]
fn foreign_character_between_texts() {
	let cases = [("かっ", "ka"), ("kak", "ta"), ("カ", "ー"), ("", "n")];
	for (a, b) in cases {
		for e in ["😀", "★", "漢"] {
			let s = format!("{}{}{}", a, e, b);
			assert_eq!(to_hiragana(&s), format!("{}{}{}", to_hiragana(a), e, to_hiragana(b)));
			assert_eq!(to_katakana(&s), format!("{}{}{}", to_katakana(a), e, to_katakana(b)));
			assert_eq!(to_romaji(&s), format!("{}{}{}", to_romaji(a), e, to_romaji(b)));
		}
	}
	assert_eq!(to_romaji("かっ😀か"), "ka'😀ka");
}

#[test]
fn fullwidth_latin_one_for_one() {
	let wide = "０１２３４５６７８９ＡＢＣＸＹＺａｂｃｘｙｚ";
	let narrow: String = wide.chars().map(|c| char::from_u32(c as u32 - 0xFEE0).unwrap()).collect();
	assert_eq!(to_romaji(wide), narrow);
}

#[test]
fn case_invariance_with_vowel_pairs() {
	for s in ["aA", "Aakka", "oOo"] {
		assert_eq!(to_hiragana(&s.to_uppercase()), to_hiragana(s).to_uppercase());
		assert_eq!(to_hiragana(&s.to_lowercase()), to_hiragana(s).to_lowercase());
	}
}
