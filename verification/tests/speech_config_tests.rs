use easydict::config::{is_hotkey_active, AppConfig, HotkeyEntry, SelectTranslateConfig};
use easydict::speech::speech_script;

const HEAD: &str = "Add-Type -AssemblyName System.Speech; $synth = New-Object System.Speech.Synthesis.SpeechSynthesizer; $synth.Speak('";

#[test]
fn script_speaks_the_text() {
    assert_eq!(speech_script("hello"), format!("{}hello');", HEAD));
    assert_eq!(speech_script(""), format!("{}');", HEAD));
}

#[test]
fn script_doubles_quotes_and_flattens_lines() {
    assert_eq!(speech_script("it's\na 'test'"), format!("{}it''s a ''test''');", HEAD));
    assert_eq!(speech_script("'"), format!("{}''');", HEAD));
    assert_eq!(speech_script("\n\n"), format!("{}  ');", HEAD));
    for text in ["a'b", "''", "line\nline", "你好'世界\n", "\r\n"] {
        let want = format!("{}{}');", HEAD, text.replace('\'', "''").replace('\n', " "));
        assert_eq!(speech_script(text), want);
    }
}

#[test]
fn default_selection_settings() {
    let c = SelectTranslateConfig::default();
    assert!(c.enabled);
    assert_eq!(c.mode, "icon");
    assert!(c.monitor_clipboard);
}

#[test]
fn default_configuration() {
    let c = AppConfig::default();
    assert!(c.hotkeys.input_translate.enabled);
    assert_eq!(c.hotkeys.input_translate.shortcut, "Alt+A");
    assert!(c.hotkeys.select_translate.enabled);
    assert_eq!(c.hotkeys.select_translate.shortcut, "Alt+D");
    assert!(c.hotkeys.screenshot_translate.enabled);
    assert_eq!(c.hotkeys.screenshot_translate.shortcut, "Alt+S");
    assert!(c.services.google.enabled);
    assert_eq!(c.services.google.api_key, "");
    assert!(!c.services.deepl.enabled);
    assert_eq!(c.services.deepl.api_key, "");
    assert!(c.services.bing.enabled);
    assert_eq!(c.services.bing.api_key, "");
    assert!(!c.services.baidu.enabled);
    assert_eq!(c.services.baidu.app_id, "");
    assert_eq!(c.services.baidu.secret_key, "");
    assert!(!c.services.openai.enabled);
    assert_eq!(c.services.openai.api_key, "");
    assert_eq!(c.services.openai.api_url, "https://api.openai.com/v1/chat/completions");
    assert_eq!(c.services.openai.model, "gpt-4o-mini");
    assert_eq!(c.general.theme, "auto");
    assert!(!c.general.auto_start);
    assert_eq!(c.general.source_lang, "auto");
    assert_eq!(c.general.target_lang, "zh-CN");
    assert!(!c.general.always_on_top);
    assert!(c.select_translate.enabled);
    assert_eq!(c.select_translate.mode, "icon");
    assert!(c.select_translate.monitor_clipboard);
}

#[test]
fn hotkey_needs_switch_and_combination() {
    let h = |enabled: bool, s: &str| HotkeyEntry { enabled, shortcut: s.to_string() };
    assert!(is_hotkey_active(&h(true, "Alt+A")));
    assert!(!is_hotkey_active(&h(false, "Alt+A")));
    assert!(!is_hotkey_active(&h(true, "")));
    assert!(!is_hotkey_active(&h(false, "")));
}
