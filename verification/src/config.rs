//! The configuration record that the other modules read, and its defaults.

use vstd::prelude::*;
use vstd::string::*;

verus! {

/// A global hotkey: whether it is registered, and its key combination.
#[derive(Debug, Clone)]
pub struct HotkeyEntry {
    pub enabled: bool,
    pub shortcut: String,
}

/// The three hotkeys.
#[derive(Debug, Clone)]
pub struct HotkeyConfig {
    pub input_translate: HotkeyEntry,
    pub select_translate: HotkeyEntry,
    pub screenshot_translate: HotkeyEntry,
}

/// A provider that needs at most an API key.
#[derive(Debug, Clone)]
pub struct ServiceEntry {
    pub enabled: bool,
    pub api_key: String,
}

/// Baidu's entry: an application id and a secret key.
#[derive(Debug, Clone)]
pub struct BaiduServiceEntry {
    pub enabled: bool,
    pub app_id: String,
    pub secret_key: String,
}

/// The entry of a chat-completion backend: key, endpoint and model.
#[derive(Debug, Clone)]
pub struct OpenAIServiceEntry {
    pub enabled: bool,
    pub api_key: String,
    pub api_url: String,
    pub model: String,
}

/// The providers, each with its switch and its credentials.
#[derive(Debug, Clone)]
pub struct ServicesConfig {
    pub google: ServiceEntry,
    pub deepl: ServiceEntry,
    pub bing: ServiceEntry,
    pub baidu: BaiduServiceEntry,
    pub openai: OpenAIServiceEntry,
}

/// Appearance and default languages.
#[derive(Debug, Clone)]
pub struct GeneralConfig {
    pub theme: String,
    pub auto_start: bool,
    pub source_lang: String,
    pub target_lang: String,
    pub always_on_top: bool,
}

/// Selection translation: whether it is on, what a new selection leads to
/// ("auto" translates at once, "icon" shows the floating indicator, anything
/// else leaves it to the hotkey), and whether the clipboard is watched.
#[derive(Debug, Clone)]
pub struct SelectTranslateConfig {
    pub enabled: bool,
    pub mode: String,
    pub monitor_clipboard: bool,
}

/// The whole configuration.
#[derive(Debug, Clone)]
pub struct AppConfig {
    pub hotkeys: HotkeyConfig,
    pub services: ServicesConfig,
    pub general: GeneralConfig,
    pub select_translate: SelectTranslateConfig,
}

/// The selection settings of a fresh installation: on, with the floating
/// indicator, watching the clipboard.
pub open spec fn default_select_translate(c: SelectTranslateConfig) -> bool {
    c.enabled && c.mode@ == "icon"@ && c.monitor_clipboard
}

/// A hotkey that is registered with the given combination.
pub open spec fn hotkey_on(h: HotkeyEntry, shortcut: Seq<char>) -> bool {
    h.enabled && h.shortcut@ == shortcut
}

/// The hotkeys of a fresh installation.
pub open spec fn default_hotkeys(h: HotkeyConfig) -> bool {
    hotkey_on(h.input_translate, "Alt+A"@) && hotkey_on(h.select_translate, "Alt+D"@) && hotkey_on(
        h.screenshot_translate,
        "Alt+S"@,
    )
}

/// The providers of a fresh installation: Google and Bing on, the others
/// off, no credentials, OpenAI's own endpoint and its small model.
pub open spec fn default_services(s: ServicesConfig) -> bool {
    &&& s.google.enabled && s.google.api_key@.len() == 0
    &&& !s.deepl.enabled && s.deepl.api_key@.len() == 0
    &&& s.bing.enabled && s.bing.api_key@.len() == 0
    &&& !s.baidu.enabled && s.baidu.app_id@.len() == 0 && s.baidu.secret_key@.len() == 0
    &&& !s.openai.enabled && s.openai.api_key@.len() == 0
    &&& s.openai.api_url@ == "https://api.openai.com/v1/chat/completions"@
    &&& s.openai.model@ == "gpt-4o-mini"@
}

/// The general settings of a fresh installation.
pub open spec fn default_general(g: GeneralConfig) -> bool {
    &&& g.theme@ == "auto"@
    &&& !g.auto_start
    &&& g.source_lang@ == "auto"@
    &&& g.target_lang@ == "zh-CN"@
    &&& !g.always_on_top
}

/// The configuration of a fresh installation.
pub open spec fn default_config(c: AppConfig) -> bool {
    default_hotkeys(c.hotkeys) && default_services(c.services) && default_general(c.general)
        && default_select_translate(c.select_translate)
}

impl Default for SelectTranslateConfig {
    fn default() -> (c: SelectTranslateConfig)
        ensures
            default_select_translate(c),
    {
        SelectTranslateConfig { enabled: true, mode: "icon".to_owned(), monitor_clipboard: true }
    }
}

impl Default for AppConfig {
    fn default() -> (c: AppConfig)
        ensures
            default_config(c),
    {
        AppConfig {
            hotkeys: HotkeyConfig {
                input_translate: HotkeyEntry { enabled: true, shortcut: "Alt+A".to_owned() },
                select_translate: HotkeyEntry { enabled: true, shortcut: "Alt+D".to_owned() },
                screenshot_translate: HotkeyEntry { enabled: true, shortcut: "Alt+S".to_owned() },
            },
            services: ServicesConfig {
                google: ServiceEntry { enabled: true, api_key: String::new() },
                deepl: ServiceEntry { enabled: false, api_key: String::new() },
                bing: ServiceEntry { enabled: true, api_key: String::new() },
                baidu: BaiduServiceEntry {
                    enabled: false,
                    app_id: String::new(),
                    secret_key: String::new(),
                },
                openai: OpenAIServiceEntry {
                    enabled: false,
                    api_key: String::new(),
                    api_url: "https://api.openai.com/v1/chat/completions".to_owned(),
                    model: "gpt-4o-mini".to_owned(),
                },
            },
            general: GeneralConfig {
                theme: "auto".to_owned(),
                auto_start: false,
                source_lang: "auto".to_owned(),
                target_lang: "zh-CN".to_owned(),
                always_on_top: false,
            },
            select_translate: SelectTranslateConfig {
                enabled: true,
                mode: "icon".to_owned(),
                monitor_clipboard: true,
            },
        }
    }
}

/// A hotkey is to be registered when it is switched on and has a key
/// combination.
pub open spec fn hotkey_active(h: HotkeyEntry) -> bool {
    h.enabled && h.shortcut@.len() > 0
}

/// Decides whether a hotkey is to be registered.
pub fn is_hotkey_active(h: &HotkeyEntry) -> (r: bool)
    ensures
        r == hotkey_active(*h),
{
    h.enabled && !h.shortcut.as_str().is_empty()
}

} // verus!
