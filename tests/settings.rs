use normal_notepad::i18n::{
    detect_system_language, get_language, get_string, init_language, same_text,
    set_language, Language, LanguageSetting,
};
use normal_notepad::document::{
    is_modified, is_untitled_file, strip_object_placeholders, window_title,
};
use normal_notepad::theme::{init_dark_mode, should_use_dark_mode, DarkModeState};

#[test]
fn strings_follow_the_language() {
    let mut setting = LanguageSetting::new();
    assert_eq!(get_language(&setting), Language::English);
    assert_eq!(get_string(&setting, "MENU_FILE"), "File(&F)");
    assert_eq!(get_string(&setting, "STATUS_LINE_COL"), "Ln {line}, Col {col}");
    set_language(&mut setting, Language::Japanese);
    assert_eq!(get_language(&setting), Language::Japanese);
    assert_eq!(get_string(&setting, "MENU_FILE"), "ファイル(&F)");
    assert_eq!(get_string(&setting, "WINDOW_TITLE"), "普通のメモ帳");
    assert_eq!(get_string(&setting, "ENCODING_ANSI"), "Shift-JIS");
}

#[test]
fn unknown_key_gives_empty_string() {
    let setting = LanguageSetting::default();
    assert_eq!(get_string(&setting, "NO_SUCH_KEY"), "");
    assert_eq!(get_string(&setting, ""), "");
    assert_eq!(get_string(&setting, "menu_file"), "");
}

#[test]
fn system_language_detection() {
    assert_eq!(detect_system_language(0x0411), Language::Japanese);
    assert_eq!(detect_system_language(0x0011), Language::Japanese);
    assert_eq!(detect_system_language(0x0409), Language::English);
    assert_eq!(detect_system_language(0x0000), Language::English);
    let mut setting = LanguageSetting::new();
    init_language(&mut setting, 0x0411);
    assert_eq!(get_language(&setting), Language::Japanese);
    init_language(&mut setting, 0x0809);
    assert_eq!(get_language(&setting), Language::English);
}

#[test]
fn untitled_names() {
    assert!(is_untitled_file("Untitled"));
    assert!(is_untitled_file("無題"));
    assert!(!is_untitled_file("Untitled.txt"));
    assert!(!is_untitled_file(""));
}

#[test]
fn text_comparison() {
    assert!(same_text("あい", "あい"));
    assert!(!same_text("あい", "あう"));
    assert!(!same_text("a", "ab"));
}

#[test]
fn dark_mode_is_taken_once() {
    let mut state = DarkModeState::new();
    assert!(!state.initialized);
    assert!(should_use_dark_mode(&mut state, true));
    assert!(should_use_dark_mode(&mut state, false));
    init_dark_mode(&mut state, false);
    assert!(state.enabled);
    let mut light = DarkModeState::default();
    init_dark_mode(&mut light, false);
    assert!(!should_use_dark_mode(&mut light, true));
}

#[test]
fn modified_and_title() {
    assert!(!is_modified("abc", "abc"));
    assert!(is_modified("abc", "abd"));
    assert_eq!(window_title("memo.txt", false, "Normal Notepad"), "memo.txt - Normal Notepad");
    assert_eq!(window_title("memo.txt", true, "普通のメモ帳"), "*memo.txt - 普通のメモ帳");
}

#[test]
fn object_placeholders_are_removed() {
    let units: Vec<u16> = vec![0x61, 0xFFFC, 0x62, 0x0001, 0xFFFD, 0x63, 0x0000];
    assert_eq!(strip_object_placeholders(&units), (vec![0x61, 0x62, 0x63, 0x0000], true));
    assert_eq!(strip_object_placeholders(&vec![0x61, 0x62]), (vec![0x61, 0x62], false));
    assert_eq!(strip_object_placeholders(&Vec::new()), (Vec::new(), false));
}
