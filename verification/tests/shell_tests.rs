use easydict::capture::choose_display;
use easydict::config::AppConfig;
use easydict::shell::{event_name, plan_hotkeys, shows_main, tray_action, ShellAction};

#[test]
fn tray_entries() {
    assert_eq!(tray_action("show"), ShellAction::ShowMain);
    assert_eq!(tray_action("input_translate"), ShellAction::ShowMain);
    assert_eq!(tray_action("screenshot_ocr"), ShellAction::TriggerScreenshot);
    assert_eq!(tray_action("quit"), ShellAction::Quit);
    assert_eq!(tray_action("about"), ShellAction::Nothing);
    assert_eq!(tray_action(""), ShellAction::Nothing);
}

#[test]
fn actions_and_their_events() {
    assert_eq!(event_name(ShellAction::FocusInput).as_deref(), Some("focus-input"));
    assert_eq!(event_name(ShellAction::SelectTranslate).as_deref(), Some("select-translate"));
    assert_eq!(event_name(ShellAction::TriggerScreenshot).as_deref(), Some("trigger-screenshot"));
    assert_eq!(event_name(ShellAction::ShowMain), None);
    assert_eq!(event_name(ShellAction::Quit), None);
    assert_eq!(event_name(ShellAction::Nothing), None);
    assert!(shows_main(ShellAction::ShowMain));
    assert!(shows_main(ShellAction::FocusInput));
    assert!(shows_main(ShellAction::SelectTranslate));
    assert!(!shows_main(ShellAction::TriggerScreenshot));
    assert!(!shows_main(ShellAction::Quit));
    assert!(!shows_main(ShellAction::Nothing));
}

#[test]
fn default_hotkeys_are_all_registered() {
    let list = plan_hotkeys(&AppConfig::default().hotkeys);
    let got: Vec<(&str, ShellAction)> = list.iter().map(|b| (b.shortcut.as_str(), b.action)).collect();
    assert_eq!(
        got,
        vec![
            ("Alt+A", ShellAction::FocusInput),
            ("Alt+D", ShellAction::SelectTranslate),
            ("Alt+S", ShellAction::TriggerScreenshot),
        ]
    );
}

#[test]
fn disabled_or_empty_hotkeys_are_left_out() {
    let mut hotkeys = AppConfig::default().hotkeys;
    hotkeys.input_translate.enabled = false;
    hotkeys.screenshot_translate.shortcut.clear();
    let list = plan_hotkeys(&hotkeys);
    assert_eq!(list.len(), 1);
    assert_eq!(list[0].shortcut, "Alt+D");
    assert_eq!(list[0].action, ShellAction::SelectTranslate);
    hotkeys.select_translate.enabled = false;
    assert!(plan_hotkeys(&hotkeys).is_empty());
}

#[test]
fn primary_display_is_chosen() {
    assert_eq!(choose_display(&vec![false, true, false, true]), Some(1));
    assert_eq!(choose_display(&vec![true]), Some(0));
    assert_eq!(choose_display(&vec![false, false]), Some(0));
    assert_eq!(choose_display(&Vec::new()), None);
}
