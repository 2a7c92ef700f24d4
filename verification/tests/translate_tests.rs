use easydict::dispatch::resolve_target;
use easydict::text::{
    char_is_space, chars_of, ends_with, is_blank, push_decimal, starts_with, str_eq, string_of,
    text_or, to_hex, trim,
};
use easydict::translate::{auto_target_lang, classify, detect_language, supported_languages, Script};

#[test]
fn detects_chinese_from_ideographs() {
    assert_eq!(detect_language("你好世界"), "zh-CN");
}

#[test]
fn detects_english_from_latin_letters() {
    assert_eq!(detect_language("Hello world"), "en");
}

#[test]
fn detects_japanese_from_kana() {
    assert_eq!(detect_language("こんにちは"), "ja");
}

#[test]
fn detects_japanese_in_mixed_kanji_and_kana() {
    assert_eq!(detect_language("日本語のテキスト"), "ja");
}

#[test]
fn detects_korean_russian_arabic_thai() {
    assert_eq!(detect_language("안녕하세요"), "ko");
    assert_eq!(detect_language("Привет мир"), "ru");
    assert_eq!(detect_language("مرحبا بالعالم"), "ar");
    assert_eq!(detect_language("สวัสดีชาวโลก"), "th");
}

#[test]
fn unclassified_text_is_english() {
    assert_eq!(detect_language(""), "en");
    assert_eq!(detect_language("   "), "en");
    assert_eq!(detect_language("1234 !? 5678"), "en");
}

#[test]
fn kana_share_must_exceed_one_tenth() {
    // one kana among ten classified characters: exactly one tenth
    assert_eq!(detect_language("あabcdefghi"), "en");
    // two among eleven
    assert_eq!(detect_language("ああabcdefghi"), "ja");
}

#[test]
fn hangul_share_must_exceed_fifteen_percent() {
    // three among twenty: exactly 15%
    assert_eq!(detect_language("한한한abcdefghijklmnopq"), "en");
    // three among nineteen
    assert_eq!(detect_language("한한한abcdefghijklmnop"), "ko");
}

#[test]
fn ideograph_share_must_exceed_one_fifth() {
    // one among five: exactly one fifth
    assert_eq!(detect_language("中abcd"), "en");
    // one among four
    assert_eq!(detect_language("中abc"), "zh-CN");
}

#[test]
fn cyrillic_wins_only_with_more_letters_than_latin() {
    assert_eq!(detect_language("дa"), "en");
    assert_eq!(detect_language("ддa"), "ru");
}

#[test]
fn kana_is_checked_before_hangul_and_ideographs() {
    assert_eq!(detect_language("あ한한中中"), "ja");
    assert_eq!(detect_language("한中中中中"), "ko");
}

#[test]
fn classify_knows_the_blocks() {
    assert_eq!(classify('中'), Script::Cjk);
    assert_eq!(classify('\u{3400}'), Script::Cjk);
    assert_eq!(classify('あ'), Script::Kana);
    assert_eq!(classify('ア'), Script::Kana);
    assert_eq!(classify('\u{31f0}'), Script::Kana);
    assert_eq!(classify('한'), Script::Hangul);
    assert_eq!(classify('\u{1100}'), Script::Hangul);
    assert_eq!(classify('д'), Script::Cyrillic);
    assert_eq!(classify('م'), Script::Arabic);
    assert_eq!(classify('ส'), Script::Thai);
    assert_eq!(classify('a'), Script::Latin);
    assert_eq!(classify('Z'), Script::Latin);
    assert_eq!(classify('é'), Script::Other);
    assert_eq!(classify('1'), Script::Other);
    assert_eq!(classify(' '), Script::Other);
}

#[test]
fn chinese_source_goes_to_english() {
    assert_eq!(auto_target_lang("zh-CN", "ja"), "en");
    assert_eq!(auto_target_lang("zh-TW", "zh-CN"), "en");
    assert_eq!(auto_target_lang("zh", "fr"), "en");
}

#[test]
fn other_sources_go_to_the_default_target() {
    assert_eq!(auto_target_lang("en", "zh-CN"), "zh-CN");
    assert_eq!(auto_target_lang("ja", "fr"), "fr");
    assert_eq!(auto_target_lang("z", "fr"), "fr");
    assert_eq!(auto_target_lang("", "de"), "de");
}

#[test]
fn language_table_is_complete() {
    let langs = supported_languages();
    assert_eq!(langs.len(), 22);
    assert_eq!(langs[0].code, "auto");
    assert_eq!(langs[0].name, "自动检测");
    assert_eq!(langs[0].name_en, "Auto Detect");
    assert_eq!(langs[1].code, "zh-CN");
    assert_eq!(langs[2].name, "繁體中文");
    assert_eq!(langs[3].name_en, "English");
    assert_eq!(langs[21].code, "tr");
    assert_eq!(langs[21].name, "土耳其语");
    assert_eq!(langs[21].name_en, "Turkish");
    let codes: Vec<&str> = langs.iter().map(|l| l.code.as_str()).collect();
    assert_eq!(
        codes,
        vec![
            "auto", "zh-CN", "zh-TW", "en", "ja", "ko", "fr", "de", "es", "pt", "ru", "ar", "th",
            "vi", "it", "nl", "pl", "uk", "id", "ms", "hi", "tr"
        ]
    );
}

#[test]
fn explicit_target_stands() {
    assert_eq!(resolve_target("你好", "auto", "ja", "zh-CN"), "ja");
}

#[test]
fn auto_target_follows_detected_source() {
    assert_eq!(resolve_target("你好世界", "auto", "auto", "zh-CN"), "en");
    assert_eq!(resolve_target("Hello world", "auto", "auto", "zh-CN"), "zh-CN");
    assert_eq!(resolve_target("こんにちは", "auto", "auto", "fr"), "fr");
}

#[test]
fn auto_target_follows_given_source() {
    // the text is Chinese, but the caller says English
    assert_eq!(resolve_target("你好世界", "en", "auto", "zh-CN"), "zh-CN");
    assert_eq!(resolve_target("Hello", "zh-TW", "auto", "ja"), "en");
}

#[test]
fn string_helpers() {
    assert!(str_eq("auto", "auto"));
    assert!(!str_eq("auto", "auto "));
    assert!(starts_with("zh-CN", "zh"));
    assert!(starts_with("zh", "zh"));
    assert!(starts_with("zh", ""));
    assert!(!starts_with("z", "zh"));
    assert!(!starts_with("en-zh", "zh"));
    assert!(ends_with("abc:fx", ":fx"));
    assert!(!ends_with("abc:fx ", ":fx"));
    assert!(!ends_with("fx", ":fx"));
    assert!(is_blank(""));
    assert!(is_blank(" \t\r\n\u{3000}\u{a0}"));
    assert!(!is_blank(" a "));
    assert_eq!(trim("  a b \n"), "a b");
    assert_eq!(trim("\u{3000}译文\u{2003}"), "译文");
    assert_eq!(trim("   "), "");
    assert_eq!(trim(""), "");
    assert_eq!(trim("x"), "x");
}

#[test]
fn trim_agrees_with_std() {
    for s in ["", " ", "a", " a", "a ", "\u{85}a\u{1680}", "\u{200b}a", "\u{2028}x\u{2029}", "\u{feff}y"] {
        assert_eq!(trim(s), s.trim());
        assert_eq!(is_blank(s), s.trim().is_empty());
    }
}

#[test]
fn decimal_notation() {
    for n in [0u32, 7, 10, 42, 100, 909, 65535, 1234567890, u32::MAX] {
        let mut s = String::from(">");
        push_decimal(&mut s, n);
        assert_eq!(s, format!(">{}", n));
    }
}

#[test]
fn bytes_in_lower_case_hexadecimal() {
    assert_eq!(to_hex(&vec![0x00, 0x0f, 0xa0, 0xff, 0x9c]), "000fa0ff9c");
    assert_eq!(to_hex(&Vec::new()), "");
    let all: Vec<u8> = (0..=255).collect();
    let want: String = all.iter().map(|b| format!("{:02x}", b)).collect();
    assert_eq!(to_hex(&all), want);
}

#[test]
fn white_space_is_what_std_calls_white_space() {
    for n in 0u32..=0x10ffff {
        if let Some(c) = char::from_u32(n) {
            assert_eq!(char_is_space(c), c.is_whitespace(), "U+{:04X}", n);
        }
    }
}

#[test]
fn characters_and_slices_of_them() {
    assert_eq!(chars_of("a中😀"), vec!['a', '中', '😀']);
    assert!(chars_of("").is_empty());
    let v = chars_of("hello 世界");
    assert_eq!(string_of(&v, 0, v.len()), "hello 世界");
    assert_eq!(string_of(&v, 6, 8), "世界");
    assert_eq!(string_of(&v, 3, 3), "");
    assert_eq!(text_or(Some("x"), "y"), "x");
}
