use kana::{to_hiragana, to_katakana, to_romaji};

fn check_katakana(kana: &str, input: &str) {
	assert_eq!(kana, to_katakana(input), "input `{}`", input);
	assert_eq!(
		kana.to_uppercase(),
		to_katakana(&input.to_uppercase()),
		"input `{}`",
		input
	);
	assert_eq!(
		kana.to_lowercase(),
		to_katakana(&input.to_lowercase()),
		"input `{}`",
		input
	);
}

#[test]
fn test_to_katakana() {
	const H: &str = "ぁあぃいぅうぇえぉおかがきぎくぐけげこごさざしじすずせぜそぞただちぢっつづてでとどなにぬねのはばぱひびぴふぶぷへべぺほぼぽまみむめもゃやゅゆょよらりるれろゎわゐゑをんゔゕゖ";
	const K: &str = "ァアィイゥウェエォオカガキギクグケゲコゴサザシジスズセゼソゾタダチヂッツヅテデトドナニヌネノハバパヒビピフブプヘベペホボポマミムメモャヤュユョヨラリルレロヮワヰヱヲンヴヵヶ";
	check_katakana(K, H);
	check_katakana(K, K);

	// Iteration marks
	check_katakana("ヽヾ", "ゝゞ");
}

fn check_hiragana(kana: &str, input: &str) {
	assert_eq!(kana, to_hiragana(input), "input `{}`", input);
	assert_eq!(
		kana.to_uppercase(),
		to_hiragana(&input.to_uppercase()),
		"input `{}`",
		input
	);
	assert_eq!(
		kana.to_lowercase(),
		to_hiragana(&input.to_lowercase()),
		"input `{}`",
		input
	);
}

#[test]
fn test_to_hiragana() {
	check_hiragana("", "");
	check_hiragana("そうしんうぃんどう", "そうしんウィンドウ");

	// Katakana
	const H: &str = "ぁあぃいぅうぇえぉおかがきぎくぐけげこごさざしじすずせぜそぞただちぢっつづてでとどなにぬねのはばぱひびぴふぶぷへべぺほぼぽまみむめもゃやゅゆょよらりるれろゎわゐゑをんゔゕゖ";
	const K: &str = "ァアィイゥウェエォオカガキギクグケゲコゴサザシジスズセゼソゾタダチヂッツヅテデトドナニヌネノハバパヒビピフブプヘベペホボポマミムメモャヤュユョヨラリルレロヮワヰヱヲンヴヵヶ";
	check_hiragana(H, K);
	check_hiragana(H, H);

	// Iteration marks
	check_hiragana("ゝゞ", "ヽヾ");

	// Romaji
	const D: &str = "しゃぎゃつっじゃあんなん んあんんざ xzm";
	const S: &str = "shyagyatsuxtujaannan n'annza xzm";
	check_hiragana(D, S);

	// Pass through punctuation
	check_hiragana("・ー～", "・ー～");
	check_hiragana("あ：ば", "A: BA"); // `: ` to `：`

	// Weird katakana
	check_hiragana("ゔぁ ゔぃ ゔ ゔぇ ゔぉ", "ヷ ヸ ヴ ヹ ヺ");

	// Hepburn style romaji and variation
	check_hiragana("あーいーうーえーおー", "āīūēō");
	check_hiragana("あーいーうーえーおー", "âîûêô");

	// Double consonants
	check_hiragana("ばっば", "babba");
	check_hiragana("かっか", "cacca");
	check_hiragana("ちゃっちゃ", "chaccha");
	check_hiragana("だっだ", "dadda");
	check_hiragana("ふっふ", "fuffu");
	check_hiragana("がっが", "gagga");
	check_hiragana("はっは", "hahha");
	check_hiragana("じゃっじゃ", "jajja");
	check_hiragana("かっか", "kakka");
	check_hiragana("らっら", "lalla");
	check_hiragana("まっま", "mamma");
	check_hiragana("なんな", "nanna");
	check_hiragana("ぱっぱ", "pappa");
	check_hiragana("くぁっくぁ", "qaqqa");
	check_hiragana("らっら", "rarra");
	check_hiragana("さっさ", "sassa");
	check_hiragana("しゃっしゃ", "shassha");
	check_hiragana("たった", "tatta");
	check_hiragana("つっつ", "tsuttsu");
	check_hiragana("ゔぁっゔぁ", "vavva");
	check_hiragana("わっわ", "wawwa");
	check_hiragana("やっや", "yayya");
	check_hiragana("ざっざ", "zazza");

	// Additional kana cases
	check_hiragana("おなじ", "onaji");
	check_hiragana("ぶっつうじ", "buttsuuji");
	check_hiragana("わにかに", "WaniKani");
	check_hiragana(
		"わにかに あいうえお 鰐蟹 12345 @#$%",
		"ワニカニ AiUeO 鰐蟹 12345 @#$%",
	);
	check_hiragana("座禅「ざぜん」すたいる", "座禅‘zazen’スタイル");
	check_hiragana("ばつげーむ", "batsuge-mu");

	let all_kana = vec![
		("ァ", "ぁ", ""),
		("ア", "あ", "a"),
		("ィ", "ぃ", ""),
		("イ", "い", "i"),
		("ゥ", "ぅ", ""),
		("ウ", "う", "u"),
		("ェ", "ぇ", ""),
		("エ", "え", "e"),
		("ォ", "ぉ", ""),
		("オ", "お", "o"),
		("カ", "か", "ka"),
		("ガ", "が", "ga"),
		("キ", "き", "ki"),
		("ギ", "ぎ", "gi"),
		("ク", "く", "ku"),
		("グ", "ぐ", "gu"),
		("ケ", "け", "ke"),
		("ゲ", "げ", "ge"),
		("コ", "こ", "ko"),
		("ゴ", "ご", "go"),
		("サ", "さ", "sa"),
		("ザ", "ざ", "za"),
		("シ", "し", "shi"),
		("ジ", "じ", "ji"),
		("ス", "す", "su"),
		("ズ", "ず", "zu"),
		("セ", "せ", "se"),
		("ゼ", "ぜ", "ze"),
		("ソ", "そ", "so"),
		("ゾ", "ぞ", "zo"),
		("タ", "た", "ta"),
		("ダ", "だ", "da"),
		("チ", "ち", "chi"),
		("ヂ", "ぢ", "di"),
		("ッ", "っ", ""),
		("ツ", "つ", "tsu"),
		("ヅ", "づ", "du"),
		("テ", "て", "te"),
		("デ", "で", "de"),
		("ト", "と", "to"),
		("ド", "ど", "do"),
		("ナ", "な", "na"),
		("ニ", "に", "ni"),
		("ヌ", "ぬ", "nu"),
		("ネ", "ね", "ne"),
		("ノ", "の", "no"),
		("ハ", "は", "ha"),
		("バ", "ば", "ba"),
		("パ", "ぱ", "pa"),
		("ヒ", "ひ", "hi"),
		("ビ", "び", "bi"),
		("ピ", "ぴ", "pi"),
		("フ", "ふ", "fu"),
		("ブ", "ぶ", "bu"),
		("プ", "ぷ", "pu"),
		("ヘ", "へ", "he"),
		("ベ", "べ", "be"),
		("ペ", "ぺ", "pe"),
		("ホ", "ほ", "ho"),
		("ボ", "ぼ", "bo"),
		("ポ", "ぽ", "po"),
		("マ", "ま", "ma"),
		("ミ", "み", "mi"),
		("ム", "む", "mu"),
		("メ", "め", "me"),
		("モ", "も", "mo"),
		("ャ", "ゃ", ""),
		("ヤ", "や", "ya"),
		("ュ", "ゅ", ""),
		("ユ", "ゆ", "yu"),
		("ョ", "ょ", ""),
		("ヨ", "よ", "yo"),
		("ラ", "ら", "ra"),
		("リ", "り", "ri"),
		("ル", "る", "ru"),
		("レ", "れ", "re"),
		("ロ", "ろ", "ro"),
		("ヮ", "ゎ", ""),
		("ワ", "わ", "wa"),
		("ヰ", "ゐ", ""),
		("", "うぃ", "wi"),
		("ヱ", "ゑ", ""),
		("", "うぇ", "we"),
		("ヲ", "を", "wo"),
		("ン", "ん", "n"),
		("ヴ", "ゔ", "vu"),
		("ヵ", "ゕ", ""),
		("ヶ", "ゖ", ""),
		("ヷ", "ゔぁ", "va"),
		("ヸ", "ゔぃ", "vi"),
		("ヹ", "ゔぇ", "ve"),
		("ヺ", "ゔぉ", "vo"),
		("・", "・", "/"),
		("ー", "ー", "-"),
		("ヽ", "ゝ", ""),
		("ヾ", "ゞ", ""),
		("ヿ", "こと", "koto"),
		("゛", "゛", ""),
		("゜", "゜", ""),
		("ゝ", "ゝ", ""),
		("ゞ", "ゞ", ""),
		("ゟ", "より", "yori"),
	];
	for (katakana, hiragana, romaji) in all_kana {
		if romaji.len() > 0 {
			check_hiragana(hiragana, romaji);
		}
		if katakana.len() > 0 {
			check_hiragana(hiragana, katakana);
		}
	}
}

fn check_romaji(kana: &str, romaji: &str) {
	assert_eq!(romaji, to_romaji(kana), "kana: `{}`", kana);
}

#[test]
fn test_to_romaji() {
	check_romaji("", "");
	check_romaji("そうしんウィンドウ", "soushinwindou");
	check_romaji("ああんいぇああ", "aan'yeaa");
	check_romaji("ヷヸヴヹヺ ゔぁゔぃゔゔぇゔぉ", "vavivuvevo vavivuvevo");

	//
	// Reversed tests from to_hiragana
	//

	// Hiragana
	const D: &str = "しゃぎゃつっじゃあんなん　んあんんざ　xzm";
	const S: &str = "shagyatsujjaannan n'annza xzm";

	// Long vogals
	check_romaji("あーいーうーえーおー", "āīūēō");

	// Double consonants
	check_romaji("ばっば", "babba");
	check_romaji("かっか", "kakka");
	check_romaji("ちゃっちゃ", "chaccha");
	check_romaji("だっだ", "dadda");
	check_romaji("ふっふ", "fuffu");
	check_romaji("がっが", "gagga");
	check_romaji("はっは", "hahha");
	check_romaji("じゃっじゃ", "jajja");
	check_romaji("かっか", "kakka");
	check_romaji("まっま", "mamma");
	check_romaji("なんな", "nanna");
	check_romaji("ぱっぱ", "pappa");
	check_romaji("くぁっくぁ", "qwaqqwa");
	check_romaji("らっら", "rarra");
	check_romaji("さっさ", "sassa");
	check_romaji("しゃっしゃ", "shassha");
	check_romaji("たった", "tatta");
	check_romaji("つっつ", "tsuttsu");
	check_romaji("ゔぁっゔぁ", "vavva");
	check_romaji("わっわ", "wawwa");
	check_romaji("やっや", "yayya");
	check_romaji("ざっざ", "zazza");

	// Archaic
	check_romaji("ゐゑ ゟ ヿ", "wiwe yori koto");
	check_romaji("ます〼", "masumasu");

	// Small tsu at the end of words
	check_romaji("ふっ", "fu'");
	check_romaji("ふっ ふっ", "fu' fu'");
	check_romaji("ぎゃっ！", "gya'!");
	check_romaji("っっべあっ…ぎゃっあっあっっっ！っx", "'bbea'…gya'a'a'''!'x");

	// Additional kana cases
	check_romaji("おなじ", "onaji");
	check_romaji("ぶっつうじ", "buttsuuji");
	check_romaji("わにかに", "wanikani");
	check_romaji(
		"わにかに あいうえお 鰐蟹 12345 @#$%",
		"wanikani aiueo 鰐蟹 12345 @#$%",
	);
	check_romaji("座禅「ざぜん」すたいる", "座禅‘zazen’sutairu");
	check_romaji("ばつげーむ", "batsuge-mu");

	check_romaji(D, S);

	//
	// Pangram and base cases
	//

	// Quick Brown Fox Hiragana to Romaji
	check_romaji("いろはにほへと", "irohanihoheto");
	check_romaji("ちりぬるを", "chirinuruwo");
	check_romaji("わかよたれそ", "wakayotareso");
	check_romaji("つねならむ", "tsunenaramu");
	check_romaji("うゐのおくやま", "uwinookuyama");
	check_romaji("けふこえて", "kefukoete");
	check_romaji("あさきゆめみし", "asakiyumemishi");
	check_romaji("ゑひもせすん", "wehimosesun");

	// Base cases:

	// Convert katakana to romaji"
	check_romaji("ワニカニ　ガ　スゴイ　ダ", "wanikani ga sugoi da");
	// Convert hiragana to romaji"
	check_romaji("わにかに　が　すごい　だ", "wanikani ga sugoi da");
	// Convert mixed kana to romaji"
	check_romaji("ワニカニ　が　すごい　だ", "wanikani ga sugoi da");
	// Doesn't mangle the long dash 'ー' or slashdot '・'"
	check_romaji("罰ゲーム・ばつげーむ", "罰ge-mu/batsuge-mu");
	// Spaces must be manually entered"

	// Double ns and double consonants:

	// Double and single n"
	check_romaji("きんにくまん", "kinnikuman");
	// N extravaganza"
	check_romaji("んんにんにんにゃんやん", "nnninninnyan'yan");
	// Double consonants"
	check_romaji(
		"かっぱ　たった　しゅっしゅ ちゃっちゃ　やっつ",
		"kappa tatta shusshu chaccha yattsu",
	);

	// Small kana:

	// Small tsu doesn't transliterate"
	check_romaji("っ", "'");
	// Small ya"
	check_romaji("ゃ", "ya");
	// Small yu"
	check_romaji("ゅ", "yu");
	// Small yo"
	check_romaji("ょ", "yo");
	// Small a"
	check_romaji("ぁ", "a");
	// Small i"
	check_romaji("ぃ", "i");
	// Small u"
	check_romaji("ぅ", "u");
	// Small e"
	check_romaji("ぇ", "e");
	// Small o"
	check_romaji("ぉ", "o");
	// Small ke (ka)" - https://en.wikipedia.org/wiki/Small_ke
	check_romaji("ヶ", "ka");
	// Small ka"
	check_romaji("ヵ", "ka");
	// Small wa"
	check_romaji("ゎ", "wa");

	// Apostrophes in vague consonant vowel combos:

	check_romaji("おんよみ", "on'yomi");
	check_romaji("んよ んあ んゆ", "n'yo n'a n'yu");

	// Roman characters
	check_romaji(
		"ＡＢＣＤＥＦＧＨＩＪＫＬＭＮＯＰＱＲＳＴＵＶＷＸＹＺ",
		"ABCDEFGHIJKLMNOPQRSTUVWXYZ",
	);
	check_romaji(
		"ａｂｃｄｅｆｇｈｉｊｋｌｍｎｏｐｑｒｓｔｕｖｗｘｙｚ",
		"abcdefghijklmnopqrstuvwxyz",
	);
	check_romaji("０１２３４５６７８９", "0123456789");

	let all_kana = vec![
		("ァ", "ぁ", "a"),
		("ア", "あ", "a"),
		("ィ", "ぃ", "i"),
		("イ", "い", "i"),
		("ゥ", "ぅ", "u"),
		("ウ", "う", "u"),
		("ェ", "ぇ", "e"),
		("エ", "え", "e"),
		("ォ", "ぉ", "o"),
		("オ", "お", "o"),
		("カ", "か", "ka"),
		("ガ", "が", "ga"),
		("キ", "き", "ki"),
		("ギ", "ぎ", "gi"),
		("ク", "く", "ku"),
		("グ", "ぐ", "gu"),
		("ケ", "け", "ke"),
		("ゲ", "げ", "ge"),
		("コ", "こ", "ko"),
		("ゴ", "ご", "go"),
		("サ", "さ", "sa"),
		("ザ", "ざ", "za"),
		("シ", "し", "shi"),
		("ジ", "じ", "ji"),
		("ス", "す", "su"),
		("ズ", "ず", "zu"),
		("セ", "せ", "se"),
		("ゼ", "ぜ", "ze"),
		("ソ", "そ", "so"),
		("ゾ", "ぞ", "zo"),
		("タ", "た", "ta"),
		("ダ", "だ", "da"),
		("チ", "ち", "chi"),
		("ヂ", "ぢ", "di"),
		("ッ", "っ", "'"),
		("ツ", "つ", "tsu"),
		("ヅ", "づ", "du"),
		("テ", "て", "te"),
		("デ", "で", "de"),
		("ト", "と", "to"),
		("ド", "ど", "do"),
		("ナ", "な", "na"),
		("ニ", "に", "ni"),
		("ヌ", "ぬ", "nu"),
		("ネ", "ね", "ne"),
		("ノ", "の", "no"),
		("ハ", "は", "ha"),
		("バ", "ば", "ba"),
		("パ", "ぱ", "pa"),
		("ヒ", "ひ", "hi"),
		("ビ", "び", "bi"),
		("ピ", "ぴ", "pi"),
		("フ", "ふ", "fu"),
		("ブ", "ぶ", "bu"),
		("プ", "ぷ", "pu"),
		("ヘ", "へ", "he"),
		("ベ", "べ", "be"),
		("ペ", "ぺ", "pe"),
		("ホ", "ほ", "ho"),
		("ボ", "ぼ", "bo"),
		("ポ", "ぽ", "po"),
		("マ", "ま", "ma"),
		("ミ", "み", "mi"),
		("ム", "む", "mu"),
		("メ", "め", "me"),
		("モ", "も", "mo"),
		("ャ", "ゃ", "ya"),
		("ヤ", "や", "ya"),
		("ュ", "ゅ", "yu"),
		("ユ", "ゆ", "yu"),
		("ョ", "ょ", "yo"),
		("ヨ", "よ", "yo"),
		("ラ", "ら", "ra"),
		("リ", "り", "ri"),
		("ル", "る", "ru"),
		("レ", "れ", "re"),
		("ロ", "ろ", "ro"),
		("ヮ", "ゎ", "wa"),
		("ワ", "わ", "wa"),
		("ヰ", "ゐ", "wi"),
		("ヱ", "ゑ", "we"),
		("ヲ", "を", "wo"),
		("ン", "ん", "n"),
		("ヴ", "ゔ", "vu"),
		("ヵ", "ゕ", "ka"),
		("ヶ", "ゖ", "ka"), // Note that small ke is pronounced as ka (https://en.wikipedia.org/wiki/Small_ke)
		("ヷ", "", "va"),
		("ヸ", "", "vi"),
		("ヹ", "", "ve"),
		("ヺ", "", "vo"),
		("・", "", "/"),
		("ー", "", "-"),
		("ヽ", "", "?"),
		("ヾ", "", "?"),
		("ヿ", "", "koto"),
		("", "゛", "゛"),
		("", "゜", "゜"),
		("", "ゝ", "?"),
		("", "ゞ", "?"),
		("", "ゟ", "yori"),
	];
	for (katakana, hiragana, val) in all_kana {
		if katakana.len() > 0 {
			check_romaji(katakana, val);
		}
		if hiragana.len() > 0 {
			check_romaji(hiragana, val);
		}
	}
}

fn check_repetition(kana: &str, romaji: &str, voiced: &str) {
	let src = format!("{}ゝ", kana);
	let out = format!("{}{}", romaji, romaji);
	check_repeated(src, out);

	let src = format!("{}ゝゝ", kana);
	let out = format!("{}{}{}", romaji, romaji, romaji);
	check_repeated(src, out);

	let src = format!("{}ゞ", kana);
	let out = format!("{}{}", romaji, voiced);
	check_repeated(src, out);

	let src = format!("{}ゞゞ", kana);
	let out = format!("{}{}{}", romaji, voiced, voiced);
	check_repeated(src, out);

	let src = format!("{}ゝゞ", kana);
	let out = format!("{}{}{}", romaji, romaji, voiced);
	check_repeated(src, out);
}

fn check_repeated(kana: String, romaji: String) {
	assert_eq!(
		romaji,
		to_romaji(kana.as_str()),
		"kana: `{}`",
		kana.as_str()
	);

	// Does the exact same test using the katakana iteration marks:
	let kana = kana.replace("ゝ", "ヽ").replace("ゞ", "ヾ");
	assert_eq!(
		romaji,
		to_romaji(kana.as_str()),
		"kana: `{}` (katakana)",
		kana.as_str()
	);
}

#[test]
fn test_to_romaji_repetition() {
	let all_kana = vec![
		("ァ", "ぁ", "a", "a"),
		("ア", "あ", "a", "a"),
		("ィ", "ぃ", "i", "i"),
		("イ", "い", "i", "i"),
		("ゥ", "ぅ", "u", "u"),
		("ウ", "う", "u", "u"),
		("ェ", "ぇ", "e", "e"),
		("エ", "え", "e", "e"),
		("ォ", "ぉ", "o", "o"),
		("オ", "お", "o", "o"),
		("カ", "か", "ka", "ga"),
		("ガ", "が", "ga", "ga"),
		("キ", "き", "ki", "gi"),
		("ギ", "ぎ", "gi", "gi"),
		("ク", "く", "ku", "gu"),
		("グ", "ぐ", "gu", "gu"),
		("ケ", "け", "ke", "ge"),
		("ゲ", "げ", "ge", "ge"),
		("コ", "こ", "ko", "go"),
		("ゴ", "ご", "go", "go"),
		("サ", "さ", "sa", "za"),
		("ザ", "ざ", "za", "za"),
		("シ", "し", "shi", "ji"),
		("ジ", "じ", "ji", "ji"),
		("ス", "す", "su", "zu"),
		("ズ", "ず", "zu", "zu"),
		("セ", "せ", "se", "ze"),
		("ゼ", "ぜ", "ze", "ze"),
		("ソ", "そ", "so", "zo"),
		("ゾ", "ぞ", "zo", "zo"),
		("タ", "た", "ta", "da"),
		("ダ", "だ", "da", "da"),
		("チ", "ち", "chi", "di"),
		("ヂ", "ぢ", "di", "di"),
		("ツ", "つ", "tsu", "du"),
		("ヅ", "づ", "du", "du"),
		("テ", "て", "te", "de"),
		("デ", "で", "de", "de"),
		("ト", "と", "to", "do"),
		("ド", "ど", "do", "do"),
		("ナ", "な", "na", "na"),
		("ニ", "に", "ni", "ni"),
		("ヌ", "ぬ", "nu", "nu"),
		("ネ", "ね", "ne", "ne"),
		("ノ", "の", "no", "no"),
		("ハ", "は", "ha", "ba"),
		("バ", "ば", "ba", "ba"),
		("パ", "ぱ", "pa", "pa"),
		("ヒ", "ひ", "hi", "bi"),
		("ビ", "び", "bi", "bi"),
		("ピ", "ぴ", "pi", "pi"),
		("フ", "ふ", "fu", "bu"),
		("ブ", "ぶ", "bu", "bu"),
		("プ", "ぷ", "pu", "pu"),
		("ヘ", "へ", "he", "be"),
		("ベ", "べ", "be", "be"),
		("ペ", "ぺ", "pe", "pe"),
		("ホ", "ほ", "ho", "bo"),
		("ボ", "ぼ", "bo", "bo"),
		("ポ", "ぽ", "po", "po"),
		("マ", "ま", "ma", "ma"),
		("ミ", "み", "mi", "mi"),
		("ム", "む", "mu", "mu"),
		("メ", "め", "me", "me"),
		("モ", "も", "mo", "mo"),
		("ャ", "ゃ", "ya", "ya"),
		("ヤ", "や", "ya", "ya"),
		("ュ", "ゅ", "yu", "yu"),
		("ユ", "ゆ", "yu", "yu"),
		("ョ", "ょ", "yo", "yo"),
		("ヨ", "よ", "yo", "yo"),
		("ラ", "ら", "ra", "ra"),
		("リ", "り", "ri", "ri"),
		("ル", "る", "ru", "ru"),
		("レ", "れ", "re", "re"),
		("ロ", "ろ", "ro", "ro"),
		("ヮ", "ゎ", "wa", "wa"),
		("ワ", "わ", "wa", "wa"),
		("ヰ", "ゐ", "wi", "wi"),
		("ヱ", "ゑ", "we", "we"),
		("ヲ", "を", "wo", "wo"),
		("ン", "ん", "n", "n"),
		("ヴ", "ゔ", "vu", "vu"),
		("ヵ", "ゕ", "ka", "ga"),
		("ヶ", "ゖ", "ka", "ga"),
		("ヷ", "ヷ", "va", "va"),
		("ヸ", "ヸ", "vi", "vi"),
		("ヹ", "ヹ", "ve", "ve"),
		("ヺ", "ヺ", "vo", "vo"),
	];

	for (katakana, hiragana, normal, voiced) in all_kana {
		check_repetition(katakana, normal, voiced);
		check_repetition(hiragana, normal, voiced);
	}

	check_repeated("ヿゝゝ".to_string(), "kotototo".to_string());
	check_repeated("ヿゝゞ".to_string(), "kototodo".to_string());
	check_repeated("ヿゞゞ".to_string(), "kotododo".to_string());
	check_repeated("ゟゝゝ".to_string(), "yoririri".to_string());
	check_repeated("ゟゞゞ".to_string(), "yoririri".to_string());
}
