use kana::{
	get_kind, is_hiragana, is_japanese_mark, is_japanese_punctuation, is_kana, is_kanji,
	is_katakana, is_letter, CharKind,
};

fn check_kind(input: &'static str, expected: CharKind) {
	for chr in input.chars() {
		let kind = get_kind(chr);
		assert_eq!(
			kind, expected,
			"expected kind of `{}` (U+{:04X}) to be {:?}, but it was {:?}",
			chr, chr as u32, expected, kind,
		);
	}
}

#[test]
fn test_char_kind() {
	// Sources:
	// - https://stackoverflow.com/questions/19899554/unicode-range-for-japanese/19945665
	// - https://japanese.stackexchange.com/questions/27393/what-phonetic-shorthands-like-%E3%80%BC-%E3%80%86-are-there-in-japanese
	// - https://en.wikipedia.org/wiki/List_of_Japanese_typographic_symbols
	// - http://www.rikai.com/library/kanjitables/kanji_codes.unicode.shtml
	// - https://www.compart.com/en/unicode/ (lookup)
	// - https://unicode-table.com/ (lookup)

	const BAR_LINE: &'static str = "ーｰ";
	const HIRAGANA: &'static str = "ぁあぃいぅうぇえぉおかがきぎくぐけげこごさざしじすずせぜそぞただちぢっつづてでとどなにぬねのはばぱひびぴふぶぷへべぺほぼぽまみむめもゃやゅゆょよらりるれろゎわゐゑをんゔゕゖゟ";
	const KATAKANA: &'static str = "ァアィイゥウェエォオカガキギクグケゲコゴサザシジスズセゼソゾタダチヂッツヅテデトドナニヌネノハバパヒビピフブプヘベペホボポマミムメモャヤュユョヨラリルレロヮワヰヱヲンヴヵヶヷヸヹヺヿㇰㇱㇲㇳㇴㇵㇶㇷㇸㇹㇺㇻㇼㇽㇾㇿ";
	const KATAKANA_HALF: &'static str = "ｱｲｳｴｵｶｷｸｹｺｻｼｽｾｿﾀﾁﾂﾃﾄﾅﾆﾇﾈﾉﾊﾋﾌﾍﾎﾏﾐﾑﾒﾓﾔﾕﾖﾗﾘﾙﾚﾛﾜﾝｦｧｨｩｪｫｬｭｮｯ";
	const ROMAJI: &'static str = "ABCDEFGHIJKLMNOPQRSTUVWXYZabcdefghijklmnopqrstuvwxyz01234567890āīūēōâîûêô";
	const ROMAN_DIGITS: &'static str = "０１２３４５６７８９";
	const ROMAN_LETTERS: &'static str = "ＡＢＣＤＥＦＧＨＩＪＫＬＭＮＯＰＱＲＳＴＵＶＷＸＹＺａｂｃｄｅｆｇｈｉｊｋｌｍｎｏｐｑｒｓｔｕｖｗｘｙｚ";
	const ROMAN_PUNCTUATION: &'static str =
		"！＂＃＄％＆＇（）＊＋，－．／：；＜＝＞？＠［＼］＾＿｀｛｜｝～";

	const JAPANESE_PUNCTUATION: &'static str = "゠・　、。〃〈〉《》「」『』【】〔〕〖〗〘〙〚〛〜〝〞〟〰〽｟｠｡｢｣､･";
	const JAPANESE_MARK: &'static str = "゛゜ゝゞヽヾ々〆〱〲〳〴〵〻〼";
	const JAPANESE_SYMBOL: &'static str = "〄〇〒〠〶〷〾〿〓￠￮㈠㈡㈢㈣㈤㈥㈦㈧㈨㈩㈪㈫㈬㈭㈮㈯㈰㈱㈲㈳㈴㈵㈶㈷㈸㈹㈺㈻㈼㈽㈾㈿㉀㉁㉂㉃㊀㊁㊂㊃㊄㊅㊆㊇㊈㊉㊊㊋㊌㊍㊎㊏㊐㊑㊒㊓㊔㊕㊖㊗㊘㊙㊚㊛㊜㊝㊞㊟㊠㊡㊢㊣㊤㊥㊦㊧㊨㊩㊪㊫㊬㊭㊮㊯㊰㊱㊲㊳㊴㊵㊶㊷㊸㊹㊺㊻㊼㊽㊾㊿㋀㋁㋂㋃㋄㋅㋆㋇㋈㋉㋊㋋㋐㋑㋒㋓㋔㋕㋖㋗㋘㋙㋚㋛㋜㋝㋞㋟㋠㋡㋢㋣㋤㋥㋦㋧㋨㋩㋪㋫㋬㋭㋮㋯㋰㋱㋲㋳㋴㋵㋶㋷㋸㋹㋺㋻㋼㋽㋾㌀㌁㌂㌃㌄㌅㌆㌇㌈㌉㌊㌋㌌㌍㌎㌏㌐㌑㌒㌓㌔㌕㌖㌗㌘㌙㌚㌛㌜㌝㌞㌟㌠㌡㌢㌣㌤㌥㌦㌧㌨㌩㌪㌫㌬㌭㌮㌯㌰㌱㌲㌳㌴㌵㌶㌷㌸㌹㌺㌻㌼㌽㌾㌿㍀㍁㍂㍃㍄㍅㍆㍇㍈㍉㍊㍋㍌㍍㍎㍏㍐㍑㍒㍓㍔㍕㍖㍗㍘㍙㍚㍛㍜㍝㍞㍟㍠㍡㍢㍣㍤㍥㍦㍧㍨㍩㍪㍫㍬㍭㍮㍯㍰㍱㍲㍳㍴㍵㍶㍻㍼㍽㍾㍿㎀㎁㎂㎃㎄㎅㎆㎇㎈㎉㎊㎋㎌㎍㎎㎏㎐㎑㎒㎓㎔㎕㎖㎗㎘㎙㎚㎛㎜㎝㎞㎟㎠㎡㎢㎣㎤㎥㎦㎧㎨㎩㎪㎫㎬㎭㎮㎯㎰㎱㎲㎳㎴㎵㎶㎷㎸㎹㎺㎻㎼㎽㎾㎿㏀㏁㏂㏃㏄㏅㏆㏇㏈㏉㏊㏋㏌㏍㏎㏏㏐㏑㏒㏓㏔㏕㏖㏗㏘㏙㏚㏛㏜㏝㏞㏟㏠㏡㏢㏣㏤㏥㏦㏧㏨㏩㏪㏫㏬㏭㏮㏯㏰㏱㏲㏳㏴㏵㏶㏷㏸㏹㏺㏻㏼㏽㏾㏿⺀⺁⺂⺃⺄⺅⺆⺇⺈⺉⺊⺋⺌⺍⺎⺏⺐⺑⺒⺓⺔⺕⺖⺗⺘⺙⺚⺛⺜⺝⺞⺟⺠⺡⺢⺣⺤⺥⺦⺧⺨⺩⺪⺫⺬⺭⺮⺯⺰⺱⺲⺳⺴⺵⺶⺷⺸⺹⺺⺻⺼⺽⺾⺿⻀⻁⻂⻃⻄⻅⻆⻇⻈⻉⻊⻋⻌⻍⻎⻏⻐⻑⻒⻓⻔⻕⻖⻗⻘⻙⻚⻛⻜⻝⻞⻟⻠⻡⻢⻣⻤⻥⻦⻧⻨⻩⻪⻫⻬⻭⻮⻯⻰⻱⻲⻳⼀⼁⼂⼃⼄⼅⼆⼇⼈⼉⼊⼋⼌⼍⼎⼏⼐⼑⼒⼓⼔⼕⼖⼗⼘⼙⼚⼛⼜⼝⼞⼟⼠⼡⼢⼣⼤⼥⼦⼧⼨⼩⼪⼫⼬⼭⼮⼯⼰⼱⼲⼳⼴⼵⼶⼷⼸⼹⼺⼻⼼⼽⼾⼿⽀⽁⽂⽃⽄⽅⽆⽇⽈⽉⽊⽋⽌⽍⽎⽏⽐⽑⽒⽓⽔⽕⽖⽗⽘⽙⽚⽛⽜⽝⽞⽟⽠⽡⽢⽣⽤⽥⽦⽧⽨⽩⽪⽫⽬⽭⽮⽯⽰⽱⽲⽳⽴⽵⽶⽷⽸⽹⽺⽻⽼⽽⽾⽿⾀⾁⾂⾃⾄⾅⾆⾇⾈⾉⾊⾋⾌⾍⾎⾏⾐⾑⾒⾓⾔⾕⾖⾗⾘⾙⾚⾛⾜⾝⾞⾟⾠⾡⾢⾣⾤⾥⾦⾧⾨⾩⾪⾫⾬⾭⾮⾯⾰⾱⾲⾳⾴⾵⾶⾷⾸⾹⾺⾻⾼⾽⾾⾿⿀⿁⿂⿃⿄⿅⿆⿇⿈⿉⿊⿋⿌⿍⿎⿏⿐⿑⿒⿓⿔⿕";

	const PUNCTUATION_ASCII: &'static str = " !\"#$%&'()*+,-./:;<=>?@[\\]^_`{|}~";
	const KANJI: &'static str = "漢字日本語文字言語言葉一丁丂七丄丅丆万丈三上下丌不与丏捰捱捲捳捴捵捶捷捸捹捺捻捼捽捾捿満溁溂溃溄溅溆溇溈溉溊溋溌溍溎溏觐觑角觓觔觕觖觗觘觙觚觛觜觝觞觟䁰䁱䁲䁳䁴䁵䁶䁷䁸䁹䁺䁻䁼䁽䁾䁿䰀䰁䰂䰃䰄䰅䰆䰇䰈䰉䰊䰋䰌䰍䰎䰏䶰䶱䶲䶳䶴䶵㐀䰼䰽䰾䩍䩎䩏䰿䶵𠀀𠂹𠂺𠂻𠂼𠂽𠳜𠳝𠳞𪏲𪏴𪏵𪏶𩺔𩺕𩺗𩺘𪛖𪜀𫙑𫙒𫙓𫑘𫑙𫑚𫑝𫜴𫝀𫞁𫞂𫞃𫞄𫟅𫟇𫟉𫠝\u{2B820}\u{2CEAF}𫢸𫢹𫭼𫭽𫮃𫮄𫰜𫰛𫸩𬀩𬀪𬃊\u{2CEB0}\u{2EBEF}";
	const NONE: &'static str = "〡〢〣〤〥〦〧〨〩〸〹〺ãç";

	// Check the `CharKind` returned by `get_kind`:

	check_kind(BAR_LINE, CharKind::BarLine);
	check_kind(HIRAGANA, CharKind::Hiragana);
	check_kind(KATAKANA, CharKind::Katakana);
	check_kind(ROMAJI, CharKind::Romaji);
	check_kind(KANJI, CharKind::Kanji);

	check_kind(KATAKANA_HALF, CharKind::KatakanaHalfWidth);

	check_kind(ROMAN_DIGITS, CharKind::RomanDigit);
	check_kind(ROMAN_LETTERS, CharKind::RomanLetter);
	check_kind(ROMAN_PUNCTUATION, CharKind::RomanPunctuation);

	check_kind(JAPANESE_PUNCTUATION, CharKind::JapanesePunctuation);
	check_kind(JAPANESE_MARK, CharKind::JapaneseMark);
	check_kind(JAPANESE_SYMBOL, CharKind::JapaneseSymbol);

	check_kind(PUNCTUATION_ASCII, CharKind::PunctuationASCII);

	check_kind(NONE, CharKind::Other);

	// Test the `is_xyz` functions:

	for chr in HIRAGANA.chars() {
		assert!(
			is_hiragana(chr),
			"expected `{}` (U+{:04X}) to be hiragana",
			chr,
			chr as u32,
		)
	}

	for chr in KATAKANA.chars() {
		assert!(
			is_katakana(chr),
			"expected `{}` (U+{:04X}) to be katakana",
			chr,
			chr as u32,
		)
	}

	for chr in KATAKANA_HALF.chars() {
		assert!(
			is_katakana(chr),
			"expected `{}` (U+{:04X}) to be katakana",
			chr,
			chr as u32,
		)
	}

	for chr in KANJI.chars() {
		assert!(
			is_kanji(chr),
			"expected `{}` (U+{:04X}) to be kanji",
			chr,
			chr as u32,
		)
	}

	let all_kana = KATAKANA.to_string() + KATAKANA_HALF + HIRAGANA + BAR_LINE;
	for chr in all_kana.chars() {
		assert!(
			is_kana(chr),
			"expected `{}` (U+{:04X}) to be kana",
			chr,
			chr as u32,
		)
	}

	let all_letters = all_kana + KANJI;
	for chr in all_letters.chars() {
		assert!(
			is_letter(chr),
			"expected `{}` (U+{:04X}) to be letter",
			chr,
			chr as u32,
		)
	}

	for chr in JAPANESE_PUNCTUATION.chars() {
		assert!(
			is_japanese_punctuation(chr),
			"expected `{}` (U+{:04X}) to be a japanese punctuation",
			chr,
			chr as u32,
		)
	}

	let all_marks = JAPANESE_MARK.to_string() + BAR_LINE;
	for chr in all_marks.chars() {
		assert!(
			is_japanese_mark(chr),
			"expected `{}` (U+{:04X}) to be a japanese mark",
			chr,
			chr as u32,
		)
	}

}
