//! What hotkeys and tray menu entries lead to. Registering them and
//! carrying the actions out is the window layer's part.

use vstd::prelude::*;
use vstd::string::*;
use crate::config::{hotkey_active, is_hotkey_active, HotkeyConfig, HotkeyEntry};
use crate::text::str_eq;

verus! {

/// What the window layer is asked to do.
#[derive(Debug, Clone, Copy, PartialEq, Eq, Structural)]
pub enum ShellAction {
    /// Nothing.
    Nothing,
    /// Show the main window and give it the focus.
    ShowMain,
    /// Put the cursor into the input field, and show the main window.
    FocusInput,
    /// Translate the current selection, and show the main window.
    SelectTranslate,
    /// Start a screenshot run.
    TriggerScreenshot,
    /// Leave the application.
    Quit,
}

/// The event that an action sends to the presentation layer, if any.
pub open spec fn action_event(a: ShellAction) -> Option<Seq<char>> {
    match a {
        ShellAction::FocusInput => Some("focus-input"@),
        ShellAction::SelectTranslate => Some("select-translate"@),
        ShellAction::TriggerScreenshot => Some("trigger-screenshot"@),
        _ => None,
    }
}

/// Whether an action brings the main window to the front.
pub open spec fn action_shows_main(a: ShellAction) -> bool {
    a == ShellAction::ShowMain || a == ShellAction::FocusInput || a == ShellAction::SelectTranslate
}

/// The name of the event that an action sends, if it sends one.
pub fn event_name(a: ShellAction) -> (r: Option<String>)
    ensures
        match r {
            Some(name) => action_event(a) == Some(name@),
            None => action_event(a) is None,
        },
{
    match a {
        ShellAction::FocusInput => Some("focus-input".to_owned()),
        ShellAction::SelectTranslate => Some("select-translate".to_owned()),
        ShellAction::TriggerScreenshot => Some("trigger-screenshot".to_owned()),
        _ => None,
    }
}

/// Decides whether an action brings the main window to the front.
pub fn shows_main(a: ShellAction) -> (r: bool)
    ensures
        r == action_shows_main(a),
{
    match a {
        ShellAction::ShowMain => true,
        ShellAction::FocusInput => true,
        ShellAction::SelectTranslate => true,
        _ => false,
    }
}

/// What an entry of the tray menu leads to, by its identifier.
pub open spec fn tray_action_of(id: Seq<char>) -> ShellAction {
    if id == "show"@ || id == "input_translate"@ {
        ShellAction::ShowMain
    } else if id == "screenshot_ocr"@ {
        ShellAction::TriggerScreenshot
    } else if id == "quit"@ {
        ShellAction::Quit
    } else {
        ShellAction::Nothing
    }
}

/// Decides what an entry of the tray menu leads to.
pub fn tray_action(id: &str) -> (a: ShellAction)
    ensures
        a == tray_action_of(id@),
{
    if str_eq(id, "show") || str_eq(id, "input_translate") {
        ShellAction::ShowMain
    } else if str_eq(id, "screenshot_ocr") {
        ShellAction::TriggerScreenshot
    } else if str_eq(id, "quit") {
        ShellAction::Quit
    } else {
        ShellAction::Nothing
    }
}

/// A hotkey to register: its key combination and what it leads to.
#[derive(Debug, Clone)]
pub struct HotkeyBinding {
    pub shortcut: String,
    pub action: ShellAction,
}

impl View for HotkeyBinding {
    type V = (Seq<char>, ShellAction);

    open spec fn view(&self) -> (Seq<char>, ShellAction) {
        (self.shortcut@, self.action)
    }
}

/// The values of a list of bindings.
pub open spec fn bindings_view(list: Seq<HotkeyBinding>) -> Seq<(Seq<char>, ShellAction)> {
    Seq::new(list.len(), |i: int| list[i]@)
}

/// The binding of a hotkey if it is to be registered, as a list of one or
/// none.
pub open spec fn binding_if_active(h: HotkeyEntry, a: ShellAction) -> Seq<
    (Seq<char>, ShellAction),
> {
    if hotkey_active(h) {
        seq![(h.shortcut@, a)]
    } else {
        Seq::empty()
    }
}

/// The hotkeys to register: of input, selection and screenshot, in this
/// order, those that are switched on and have a key combination.
pub open spec fn hotkey_bindings(h: HotkeyConfig) -> Seq<(Seq<char>, ShellAction)> {
    binding_if_active(h.input_translate, ShellAction::FocusInput) + binding_if_active(
        h.select_translate,
        ShellAction::SelectTranslate,
    ) + binding_if_active(h.screenshot_translate, ShellAction::TriggerScreenshot)
}

/// Lists the hotkeys to register for a configuration.
pub fn plan_hotkeys(hotkeys: &HotkeyConfig) -> (list: Vec<HotkeyBinding>)
    ensures
        bindings_view(list@) == hotkey_bindings(*hotkeys),
{
    let mut list: Vec<HotkeyBinding> = Vec::new();
    proof {
        assert(bindings_view(list@) =~= Seq::empty());
    }
    if is_hotkey_active(&hotkeys.input_translate) {
        let b = HotkeyBinding {
            shortcut: hotkeys.input_translate.shortcut.clone(),
            action: ShellAction::FocusInput,
        };
        let ghost before = bindings_view(list@);
        list.push(b);
        proof {
            assert(bindings_view(list@) =~= before.push(b@));
        }
    }
    proof {
        assert(bindings_view(list@) =~= binding_if_active(
            hotkeys.input_translate,
            ShellAction::FocusInput,
        ));
    }
    if is_hotkey_active(&hotkeys.select_translate) {
        let b = HotkeyBinding {
            shortcut: hotkeys.select_translate.shortcut.clone(),
            action: ShellAction::SelectTranslate,
        };
        let ghost before = bindings_view(list@);
        list.push(b);
        proof {
            assert(bindings_view(list@) =~= before.push(b@));
        }
    }
    proof {
        assert(bindings_view(list@) =~= binding_if_active(
            hotkeys.input_translate,
            ShellAction::FocusInput,
        ) + binding_if_active(hotkeys.select_translate, ShellAction::SelectTranslate));
    }
    if is_hotkey_active(&hotkeys.screenshot_translate) {
        let b = HotkeyBinding {
            shortcut: hotkeys.screenshot_translate.shortcut.clone(),
            action: ShellAction::TriggerScreenshot,
        };
        let ghost before = bindings_view(list@);
        list.push(b);
        proof {
            assert(bindings_view(list@) =~= before.push(b@));
        }
    }
    proof {
        assert(bindings_view(list@) =~= hotkey_bindings(*hotkeys));
    }
    list
}

} // verus!
