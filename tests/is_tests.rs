use kana::{is_hiragana, is_kanji, is_katakana};

#[test]
fn test_is_hiragana() {
	let s = "ぁあぃいぅうぇえぉおかがきぎくぐけげこごさざしじすずせぜそぞただちぢっつづてでとどなにぬねのはばぱひびぴふぶぷへべぺほぼぽまみむめもゃやゅゆょよらりるれろゎわゐゑをんゔゕゖゐゑゟ";
	for chr in s.chars() {
		assert!(is_hiragana(chr), "is_hiragana({})", chr);
	}

	for code in 0x3041..=0x3096 {
		let chr = std::char::from_u32(code).unwrap();
		assert!(is_hiragana(chr), "is_hiragana(U+{:04X})", code);
	}

	for chr in "ｰー゠・".chars() {
		assert!(!is_hiragana(chr), "!is_hiragana({})", chr);
	}

	assert!(!is_hiragana('\u{3040}'));
	assert!(!is_hiragana('\u{3097}'));
}

#[test]
fn test_is_katakana() {
	let s = "ァアィイゥウェエォオカガキギクグケゲコゴサザシジスズセゼソゾタダチヂッツヅテデトドナニヌネノハバパヒビピフブプヘベペホボポマミムメモャヤュユョヨラリルレロヮワヰヱヲンヴヵヶヷヸヹヺヿ";
	for chr in s.chars() {
		assert!(is_katakana(chr), "is_katakana({})", chr);
	}

	for code in 0x30A1..=0x30FA {
		let chr = std::char::from_u32(code).unwrap();
		assert!(is_katakana(chr), "is_katakana(U+{:04X})", code);
	}

	for chr in "ｰー゠・".chars() {
		assert!(!is_katakana(chr), "!is_katakana({})", chr);
	}

	assert!(!is_katakana('\u{30A0}'));
	assert!(!is_katakana('\u{30FB}'));
}

#[test]
fn test_is_kanji() {
	let s = "一切腹刀丁丂七丄丅丆万丈三上下丌不与丏岐岑岒岓岔岕岖岗岘岙岚岛岜岝岞岟棰棱棲棳棴棵棶棷棸棹棺棻棼棽棾棿龠龡龢龣龤龥龦龧龨龩龪龫龬龭龮龯";
	for chr in s.chars() {
		assert!(is_kanji(chr), "is_kanji({}) -- 0x{:04X}", chr, chr as u32);
	}

	for code in 0x4E00..=0x9FAF {
		let chr = std::char::from_u32(code).unwrap();
		assert!(is_kanji(chr), "is_kanji(U+{:04X})", code);
	}

	assert!(!is_kanji('\u{4DFF}'));
	assert!(!is_kanji('\u{9FB0}'));
}
