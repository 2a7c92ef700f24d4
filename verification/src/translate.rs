//! Language table, the character-class language heuristic and target
//! language resolution.

use vstd::prelude::*;
use vstd::string::*;
use crate::text::{chars_of, has_prefix, starts_with};

verus! {

/// What one translation backend answered, in the shape common to all of them.
#[derive(Debug, Clone)]
pub struct TranslateResult {
    pub service: String,
    pub translated: String,
    pub source_lang: String,
    pub target_lang: String,
    pub error: Option<String>,
}

/// The mathematical value of a [`TranslateResult`].
pub ghost struct TranslationView {
    pub service: Seq<char>,
    pub translated: Seq<char>,
    pub source_lang: Seq<char>,
    pub target_lang: Seq<char>,
    pub error: Option<Seq<char>>,
}

impl View for TranslateResult {
    type V = TranslationView;

    open spec fn view(&self) -> TranslationView {
        TranslationView {
            service: self.service@,
            translated: self.translated@,
            source_lang: self.source_lang@,
            target_lang: self.target_lang@,
            error: match self.error {
                Some(e) => Some(e@),
                None => None,
            },
        }
    }
}

/// A language the user can pick: its code, its Chinese name and its English name.
#[derive(Debug, Clone)]
pub struct LangPair {
    pub code: String,
    pub name: String,
    pub name_en: String,
}

impl View for LangPair {
    type V = (Seq<char>, Seq<char>, Seq<char>);

    open spec fn view(&self) -> (Seq<char>, Seq<char>, Seq<char>) {
        (self.code@, self.name@, self.name_en@)
    }
}

/// The table of selectable languages, each as (code, name, English name).
pub open spec fn language_table() -> Seq<(Seq<char>, Seq<char>, Seq<char>)> {
    seq![
        ("auto"@, "自动检测"@, "Auto Detect"@),
        ("zh-CN"@, "简体中文"@, "Chinese (Simplified)"@),
        ("zh-TW"@, "繁體中文"@, "Chinese (Traditional)"@),
        ("en"@, "英语"@, "English"@),
        ("ja"@, "日语"@, "Japanese"@),
        ("ko"@, "韩语"@, "Korean"@),
        ("fr"@, "法语"@, "French"@),
        ("de"@, "德语"@, "German"@),
        ("es"@, "西班牙语"@, "Spanish"@),
        ("pt"@, "葡萄牙语"@, "Portuguese"@),
        ("ru"@, "俄语"@, "Russian"@),
        ("ar"@, "阿拉伯语"@, "Arabic"@),
        ("th"@, "泰语"@, "Thai"@),
        ("vi"@, "越南语"@, "Vietnamese"@),
        ("it"@, "意大利语"@, "Italian"@),
        ("nl"@, "荷兰语"@, "Dutch"@),
        ("pl"@, "波兰语"@, "Polish"@),
        ("uk"@, "乌克兰语"@, "Ukrainian"@),
        ("id"@, "印度尼西亚语"@, "Indonesian"@),
        ("ms"@, "马来语"@, "Malay"@),
        ("hi"@, "印地语"@, "Hindi"@),
        ("tr"@, "土耳其语"@, "Turkish"@),
    ]
}

fn lang(code: &str, name: &str, name_en: &str) -> (p: LangPair)
    ensures
        p@ == (code@, name@, name_en@),
{
    LangPair { code: code.to_owned(), name: name.to_owned(), name_en: name_en.to_owned() }
}

/// The selectable languages, "auto" first.
pub fn supported_languages() -> (langs: Vec<LangPair>)
    ensures
        langs@.map_values(|p: LangPair| p@) == language_table(),
{
    let langs = vec![
        lang("auto", "自动检测", "Auto Detect"),
        lang("zh-CN", "简体中文", "Chinese (Simplified)"),
        lang("zh-TW", "繁體中文", "Chinese (Traditional)"),
        lang("en", "英语", "English"),
        lang("ja", "日语", "Japanese"),
        lang("ko", "韩语", "Korean"),
        lang("fr", "法语", "French"),
        lang("de", "德语", "German"),
        lang("es", "西班牙语", "Spanish"),
        lang("pt", "葡萄牙语", "Portuguese"),
        lang("ru", "俄语", "Russian"),
        lang("ar", "阿拉伯语", "Arabic"),
        lang("th", "泰语", "Thai"),
        lang("vi", "越南语", "Vietnamese"),
        lang("it", "意大利语", "Italian"),
        lang("nl", "荷兰语", "Dutch"),
        lang("pl", "波兰语", "Polish"),
        lang("uk", "乌克兰语", "Ukrainian"),
        lang("id", "印度尼西亚语", "Indonesian"),
        lang("ms", "马来语", "Malay"),
        lang("hi", "印地语", "Hindi"),
        lang("tr", "土耳其语", "Turkish"),
    ];
    proof {
        assert(langs@.map_values(|p: LangPair| p@) =~= language_table());
    }
    langs
}

/// The writing systems that the language heuristic tells apart.
#[derive(Debug, Clone, Copy, PartialEq, Eq, Structural)]
pub enum Script {
    Cjk,
    Kana,
    Hangul,
    Cyrillic,
    Arabic,
    Thai,
    Latin,
    Other,
}

/// The writing system a character belongs to, by its Unicode block.
pub open spec fn script_of(c: char) -> Script {
    let n = c as u32;
    if (0x4e00 <= n <= 0x9fff) || (0x3400 <= n <= 0x4dbf) {
        Script::Cjk
    } else if (0x3040 <= n <= 0x309f) || (0x30a0 <= n <= 0x30ff) || (0x31f0 <= n <= 0x31ff) {
        Script::Kana
    } else if (0xac00 <= n <= 0xd7af) || (0x1100 <= n <= 0x11ff) {
        Script::Hangul
    } else if 0x0400 <= n <= 0x04ff {
        Script::Cyrillic
    } else if 0x0600 <= n <= 0x06ff {
        Script::Arabic
    } else if 0x0e00 <= n <= 0x0e7f {
        Script::Thai
    } else if (0x61 <= n <= 0x7a) || (0x41 <= n <= 0x5a) {
        Script::Latin
    } else {
        Script::Other
    }
}

/// How many characters of `s` belong to `script`.
pub open spec fn script_count(s: Seq<char>, script: Script) -> nat
    decreases s.len(),
{
    if s.len() == 0 {
        0
    } else {
        script_count(s.drop_last(), script) + if script_of(s.last()) == script {
            1nat
        } else {
            0nat
        }
    }
}

/// How many characters of `s` belong to any of the seven classified scripts.
pub open spec fn classified_count(s: Seq<char>) -> nat {
    script_count(s, Script::Cjk) + script_count(s, Script::Kana) + script_count(s, Script::Hangul)
        + script_count(s, Script::Latin) + script_count(s, Script::Cyrillic) + script_count(
        s,
        Script::Arabic,
    ) + script_count(s, Script::Thai)
}

/// The language guessed for a text from its character-class histogram.
///
/// The shares are taken of the classified characters: Kana above one tenth
/// gives Japanese, else Hangul above 15% Korean, else ideographs above one
/// fifth simplified Chinese; then Cyrillic, Arabic and Thai win against the
/// Latin letters by plain count, in that order. Everything else is English.
pub open spec fn detected_language(s: Seq<char>) -> Seq<char> {
    let total = classified_count(s);
    if total == 0 {
        "en"@
    } else if 10 * script_count(s, Script::Kana) > total {
        "ja"@
    } else if 100 * script_count(s, Script::Hangul) > 15 * total {
        "ko"@
    } else if 5 * script_count(s, Script::Cjk) > total {
        "zh-CN"@
    } else if script_count(s, Script::Cyrillic) > script_count(s, Script::Latin) {
        "ru"@
    } else if script_count(s, Script::Arabic) > script_count(s, Script::Latin) {
        "ar"@
    } else if script_count(s, Script::Thai) > script_count(s, Script::Latin) {
        "th"@
    } else {
        "en"@
    }
}

/// Classifies one character.
pub fn classify(c: char) -> (k: Script)
    ensures
        k == script_of(c),
{
    let n: u32 = c as u32;
    if (0x4e00 <= n && n <= 0x9fff) || (0x3400 <= n && n <= 0x4dbf) {
        Script::Cjk
    } else if (0x3040 <= n && n <= 0x309f) || (0x30a0 <= n && n <= 0x30ff) || (0x31f0 <= n && n
        <= 0x31ff) {
        Script::Kana
    } else if (0xac00 <= n && n <= 0xd7af) || (0x1100 <= n && n <= 0x11ff) {
        Script::Hangul
    } else if 0x0400 <= n && n <= 0x04ff {
        Script::Cyrillic
    } else if 0x0600 <= n && n <= 0x06ff {
        Script::Arabic
    } else if 0x0e00 <= n && n <= 0x0e7f {
        Script::Thai
    } else if (0x61 <= n && n <= 0x7a) || (0x41 <= n && n <= 0x5a) {
        Script::Latin
    } else {
        Script::Other
    }
}

proof fn count_step(s: Seq<char>, i: int, script: Script)
    requires
        0 <= i < s.len(),
    ensures
        script_count(s.take(i + 1), script) == script_count(s.take(i), script) + if script_of(s[i])
            == script {
            1nat
        } else {
            0nat
        },
        script_count(s.take(i), script) <= i,
    decreases i,
{
    assert(s.take(i + 1).drop_last() =~= s.take(i));
    if i > 0 {
        count_step(s, i - 1, script);
    }
}

/// Guesses the language of a text from the scripts of its characters.
pub fn detect_language(text: &str) -> (code: String)
    ensures
        code@ == detected_language(text@),
{
    let v = chars_of(text);
    let mut cjk: u128 = 0;
    let mut kana: u128 = 0;
    let mut hangul: u128 = 0;
    let mut latin: u128 = 0;
    let mut cyrillic: u128 = 0;
    let mut arabic: u128 = 0;
    let mut thai: u128 = 0;
    let mut i: usize = 0;
    while i < v.len()
        invariant
            i <= v.len(),
            v@ == text@,
            cjk == script_count(v@.take(i as int), Script::Cjk),
            kana == script_count(v@.take(i as int), Script::Kana),
            hangul == script_count(v@.take(i as int), Script::Hangul),
            latin == script_count(v@.take(i as int), Script::Latin),
            cyrillic == script_count(v@.take(i as int), Script::Cyrillic),
            arabic == script_count(v@.take(i as int), Script::Arabic),
            thai == script_count(v@.take(i as int), Script::Thai),
            cjk <= i && kana <= i && hangul <= i && latin <= i && cyrillic <= i && arabic <= i
                && thai <= i,
        decreases v.len() - i,
    {
        proof {
            count_step(v@, i as int, Script::Cjk);
            count_step(v@, i as int, Script::Kana);
            count_step(v@, i as int, Script::Hangul);
            count_step(v@, i as int, Script::Latin);
            count_step(v@, i as int, Script::Cyrillic);
            count_step(v@, i as int, Script::Arabic);
            count_step(v@, i as int, Script::Thai);
        }
        match classify(v[i]) {
            Script::Cjk => cjk = cjk + 1,
            Script::Kana => kana = kana + 1,
            Script::Hangul => hangul = hangul + 1,
            Script::Latin => latin = latin + 1,
            Script::Cyrillic => cyrillic = cyrillic + 1,
            Script::Arabic => arabic = arabic + 1,
            Script::Thai => thai = thai + 1,
            Script::Other => {},
        }
        i = i + 1;
    }
    proof {
        assert(v@.take(v@.len() as int) =~= v@);
    }
    let total: u128 = cjk + kana + hangul + latin + cyrillic + arabic + thai;
    if total == 0 {
        "en".to_owned()
    } else if 10 * kana > total {
        "ja".to_owned()
    } else if 100 * hangul > 15 * total {
        "ko".to_owned()
    } else if 5 * cjk > total {
        "zh-CN".to_owned()
    } else if cyrillic > latin {
        "ru".to_owned()
    } else if arabic > latin {
        "ar".to_owned()
    } else if thai > latin {
        "th".to_owned()
    } else {
        "en".to_owned()
    }
}

/// The target language for a request that leaves the choice open.
pub open spec fn auto_target(source_lang: Seq<char>, default_target: Seq<char>) -> Seq<char> {
    if has_prefix(source_lang, "zh"@) {
        "en"@
    } else {
        default_target
    }
}

/// Picks the target language from the detected source: Chinese goes to
/// English, everything else to the configured default.
pub fn auto_target_lang(source_lang: &str, default_target: &str) -> (target: String)
    ensures
        target@ == auto_target(source_lang@, default_target@),
{
    if starts_with(source_lang, "zh") {
        "en".to_owned()
    } else {
        default_target.to_owned()
    }
}

} // verus!
