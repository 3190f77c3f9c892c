use normal_notepad::codec::FileEncoding;
use normal_notepad::file_dialog::{
    open_dialog_encoding, open_dialog_labels, save_dialog_default_index, save_dialog_encoding,
    save_dialog_labels,
};
use normal_notepad::i18n::{set_language, Language, LanguageSetting};
use normal_notepad::menu::{
    context_menu_entries, shortcut_action, KeyAction, MenuEntry, ID_EDIT_CUT, ID_EDIT_PASTE,
    ID_EDIT_SELECTALL, ID_EDIT_UNDO,
};

#[test]
fn open_dialog_choices() {
    assert_eq!(open_dialog_encoding(0), FileEncoding::Auto);
    assert_eq!(open_dialog_encoding(1), FileEncoding::ShiftJis);
    assert_eq!(open_dialog_encoding(2), FileEncoding::Utf16Le);
    assert_eq!(open_dialog_encoding(3), FileEncoding::Utf16Be);
    assert_eq!(open_dialog_encoding(4), FileEncoding::Utf8);
    assert_eq!(open_dialog_encoding(5), FileEncoding::Utf8Bom);
    assert_eq!(open_dialog_encoding(99), FileEncoding::Auto);
}

#[test]
fn save_dialog_choices_and_default() {
    assert_eq!(save_dialog_encoding(0), FileEncoding::ShiftJis);
    assert_eq!(save_dialog_encoding(3), FileEncoding::Utf8);
    assert_eq!(save_dialog_encoding(4), FileEncoding::Utf8Bom);
    assert_eq!(save_dialog_encoding(7), FileEncoding::Utf8);
    assert_eq!(save_dialog_default_index(FileEncoding::Auto), 3);
    for e in [
        FileEncoding::Utf8,
        FileEncoding::Utf8Bom,
        FileEncoding::Utf16Le,
        FileEncoding::Utf16Be,
        FileEncoding::ShiftJis,
    ] {
        assert_eq!(save_dialog_encoding(save_dialog_default_index(e)), e);
    }
}

#[test]
fn dialog_labels() {
    let mut setting = LanguageSetting::new();
    assert_eq!(
        open_dialog_labels(&setting),
        vec!["Auto", "ANSI", "UTF-16 LE", "UTF-16 BE", "UTF-8", "UTF-8 (BOM)"]
    );
    set_language(&mut setting, Language::Japanese);
    assert_eq!(
        save_dialog_labels(&setting),
        vec!["Shift-JIS", "UTF-16 LE", "UTF-16 BE", "UTF-8", "UTF-8 (BOM)"]
    );
}

#[test]
fn context_menu_layout_and_enabling() {
    let setting = LanguageSetting::new();
    let entries = context_menu_entries(&setting, false, true, false, true);
    assert_eq!(entries.len(), 9);
    assert!(matches!(entries[2], MenuEntry::Separator));
    assert!(matches!(entries[7], MenuEntry::Separator));
    match &entries[0] {
        MenuEntry::Command { id, label, enabled } => {
            assert_eq!(*id, ID_EDIT_UNDO);
            assert_eq!(label, "Undo (Ctrl+Z)");
            assert!(!*enabled);
        }
        MenuEntry::Separator => panic!("expected a command"),
    }
    match &entries[3] {
        MenuEntry::Command { id, enabled, .. } => {
            assert_eq!(*id, ID_EDIT_CUT);
            assert!(!*enabled);
        }
        MenuEntry::Separator => panic!("expected a command"),
    }
    match &entries[5] {
        MenuEntry::Command { id, enabled, .. } => {
            assert_eq!(*id, ID_EDIT_PASTE);
            assert!(*enabled);
        }
        MenuEntry::Separator => panic!("expected a command"),
    }
    match &entries[8] {
        MenuEntry::Command { id, label, enabled } => {
            assert_eq!(*id, ID_EDIT_SELECTALL);
            assert_eq!(label, "Select All (Ctrl+A)");
            assert!(*enabled);
        }
        MenuEntry::Separator => panic!("expected a command"),
    }
}

#[test]
fn keyboard_shortcuts() {
    assert_eq!(shortcut_action(0x45, true), KeyAction::Ignore);
    assert_eq!(shortcut_action(0x52, true), KeyAction::Ignore);
    assert_eq!(shortcut_action(0x53, true), KeyAction::Save);
    assert_eq!(shortcut_action(0x56, true), KeyAction::Paste);
    assert_eq!(shortcut_action(0x41, true), KeyAction::Pass);
    assert_eq!(shortcut_action(0x53, false), KeyAction::Pass);
    assert_eq!(shortcut_action(0x45, false), KeyAction::Pass);
}
