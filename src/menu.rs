//! Menu command identifiers and the entries of the editor's context menu.

use vstd::prelude::*;
use crate::i18n::{get_string, text_for, Language, LanguageSetting};

verus! {

pub const ID_FILE_NEW: i32 = 1;
pub const ID_FILE_OPEN: i32 = 2;
pub const ID_FILE_SAVE: i32 = 3;
pub const ID_FILE_SAVEAS: i32 = 4;
pub const ID_FILE_EXIT: i32 = 5;
pub const ID_EDIT_UNDO: i32 = 6;
pub const ID_EDIT_REDO: i32 = 7;
pub const ID_EDIT_COPY: i32 = 8;
pub const ID_EDIT_CUT: i32 = 9;
pub const ID_EDIT_PASTE: i32 = 10;
pub const ID_VIEW_WORDWRAP: i32 = 11;
pub const ID_VIEW_STATUSBAR: i32 = 12;
pub const ID_EDIT_SELECTALL: i32 = 13;
pub const ID_EDIT_DELETE: i32 = 14;
pub const ID_VIEW_DARKMODE: i32 = 15;

/// One entry of a menu.
#[derive(Debug)]
pub enum MenuEntry {
    /// A command with its identifier, label and whether it can be chosen.
    Command { id: i32, label: String, enabled: bool },
    /// A dividing line.
    Separator,
}

/// Mathematical view of `MenuEntry`.
pub enum MenuEntryView {
    Command { id: i32, label: Seq<char>, enabled: bool },
    Separator,
}

impl View for MenuEntry {
    type V = MenuEntryView;

    open spec fn view(&self) -> MenuEntryView {
        match self {
            MenuEntry::Command { id, label, enabled } => MenuEntryView::Command {
                id: *id,
                label: label@,
                enabled: *enabled,
            },
            MenuEntry::Separator => MenuEntryView::Separator,
        }
    }
}

pub open spec fn command_view(lang: Language, id: i32, key: Seq<char>, enabled: bool) -> MenuEntryView {
    MenuEntryView::Command { id, label: text_for(lang, key), enabled }
}

/// The context menu: undo and redo, a line, cut, copy, paste and delete, a
/// line, and select all. Undo and redo need something to undo or redo; cut,
/// copy and delete need a selection; paste needs text on the clipboard.
pub open spec fn context_menu_spec(
    lang: Language,
    can_undo: bool,
    can_redo: bool,
    has_selection: bool,
    can_paste: bool,
) -> Seq<MenuEntryView> {
    seq![
        command_view(lang, ID_EDIT_UNDO, "CONTEXT_UNDO"@, can_undo),
        command_view(lang, ID_EDIT_REDO, "CONTEXT_REDO"@, can_redo),
        MenuEntryView::Separator,
        command_view(lang, ID_EDIT_CUT, "CONTEXT_CUT"@, has_selection),
        command_view(lang, ID_EDIT_COPY, "CONTEXT_COPY"@, has_selection),
        command_view(lang, ID_EDIT_PASTE, "CONTEXT_PASTE"@, can_paste),
        command_view(lang, ID_EDIT_DELETE, "CONTEXT_DELETE"@, has_selection),
        MenuEntryView::Separator,
        command_view(lang, ID_EDIT_SELECTALL, "CONTEXT_SELECTALL"@, true),
    ]
}

fn command_entry(setting: &LanguageSetting, id: i32, key: &str, enabled: bool) -> (r: MenuEntry)
    ensures
        r@ == command_view(setting.current, id, key@, enabled),
{
    MenuEntry::Command { id, label: get_string(setting, key), enabled }
}

/// The entries of the context menu, labelled in the current language.
pub fn context_menu_entries(
    setting: &LanguageSetting,
    can_undo: bool,
    can_redo: bool,
    has_selection: bool,
    can_paste: bool,
) -> (r: Vec<MenuEntry>)
    ensures
        r@.map_values(|e: MenuEntry| e@) == context_menu_spec(
            setting.current,
            can_undo,
            can_redo,
            has_selection,
            can_paste,
        ),
{
    let mut r: Vec<MenuEntry> = Vec::new();
    r.push(command_entry(setting, ID_EDIT_UNDO, "CONTEXT_UNDO", can_undo));
    r.push(command_entry(setting, ID_EDIT_REDO, "CONTEXT_REDO", can_redo));
    r.push(MenuEntry::Separator);
    r.push(command_entry(setting, ID_EDIT_CUT, "CONTEXT_CUT", has_selection));
    r.push(command_entry(setting, ID_EDIT_COPY, "CONTEXT_COPY", has_selection));
    r.push(command_entry(setting, ID_EDIT_PASTE, "CONTEXT_PASTE", can_paste));
    r.push(command_entry(setting, ID_EDIT_DELETE, "CONTEXT_DELETE", has_selection));
    r.push(MenuEntry::Separator);
    r.push(command_entry(setting, ID_EDIT_SELECTALL, "CONTEXT_SELECTALL", true));
    assert(r@.map_values(|e: MenuEntry| e@) =~= context_menu_spec(
        setting.current,
        can_undo,
        can_redo,
        has_selection,
        can_paste,
    ));
    r
}

/// What the message loop does with a key press before the window sees it.
#[derive(Clone, Copy, Debug, PartialEq, Eq, Structural)]
pub enum KeyAction {
    /// Drop the key press.
    Ignore,
    /// Save the document.
    Save,
    /// Paste plain text from the clipboard.
    Paste,
    /// Let the window handle the key press.
    Pass,
}

/// Ctrl+E and Ctrl+R, which would change paragraph alignment, are dropped;
/// Ctrl+S saves; Ctrl+V pastes plain text; every other key passes.
pub open spec fn key_action_of(virtual_key: i32, ctrl_pressed: bool) -> KeyAction {
    if !ctrl_pressed {
        KeyAction::Pass
    } else if virtual_key == 0x45 || virtual_key == 0x52 {
        KeyAction::Ignore
    } else if virtual_key == 0x53 {
        KeyAction::Save
    } else if virtual_key == 0x56 {
        KeyAction::Paste
    } else {
        KeyAction::Pass
    }
}

/// Decides what the message loop does with a key press of `virtual_key`.
pub fn shortcut_action(virtual_key: i32, ctrl_pressed: bool) -> (r: KeyAction)
    ensures
        r == key_action_of(virtual_key, ctrl_pressed),
{
    if !ctrl_pressed {
        KeyAction::Pass
    } else if virtual_key == 0x45 || virtual_key == 0x52 {
        KeyAction::Ignore
    } else if virtual_key == 0x53 {
        KeyAction::Save
    } else if virtual_key == 0x56 {
        KeyAction::Paste
    } else {
        KeyAction::Pass
    }
}

} // verus!
