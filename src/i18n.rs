//! The editor's interface language and its string tables.

use vstd::prelude::*;
use vstd::utf8::{encode_utf8, encode_utf8_decode_utf8};

verus! {

/// An interface language.
#[derive(Clone, Copy, Debug, PartialEq, Eq, Structural)]
pub enum Language {
    Japanese,
    English,
}

/// The primary language code of Japanese in a user interface language id.
pub const LANG_JAPANESE: u16 = 0x11;

/// The language for a user interface language id: Japanese when its low
/// byte is the Japanese language code, English otherwise.
pub open spec fn language_for_id(ui_language_id: u16) -> Language {
    if ui_language_id & 0xFF == LANG_JAPANESE {
        Language::Japanese
    } else {
        Language::English
    }
}

/// Picks the interface language from the system's user interface language id.
pub fn detect_system_language(ui_language_id: u16) -> (r: Language)
    ensures
        r == language_for_id(ui_language_id),
{
    if ui_language_id & 0xFF == LANG_JAPANESE {
        Language::Japanese
    } else {
        Language::English
    }
}

/// The language the interface is shown in.
pub struct LanguageSetting {
    pub current: Language,
}

impl LanguageSetting {
    /// A setting that starts in English.
    pub fn new() -> (r: LanguageSetting)
        ensures
            r.current == Language::English,
    {
        LanguageSetting { current: Language::English }
    }
}

impl Default for LanguageSetting {
    fn default() -> (r: LanguageSetting)
        ensures
            r.current == Language::English,
    {
        LanguageSetting::new()
    }
}

/// Sets the language from the system's user interface language id.
pub fn init_language(setting: &mut LanguageSetting, ui_language_id: u16)
    ensures
        final(setting).current == language_for_id(ui_language_id),
{
    let detected = detect_system_language(ui_language_id);
    set_language(setting, detected);
}

/// The current language.
pub fn get_language(setting: &LanguageSetting) -> (r: Language)
    ensures
        r == setting.current,
{
    setting.current
}

/// Makes `lang` the current language.
pub fn set_language(setting: &mut LanguageSetting, lang: Language)
    ensures
        final(setting).current == lang,
{
    setting.current = lang;
}

/// The interface string for `key` in `lang`; empty for an unknown key.
pub open spec fn text_for(lang: Language, key: Seq<char>) -> Seq<char> {
    match lang {
        Language::Japanese => japanese_text(key),
        Language::English => english_text(key),
    }
}

/// The interface string for `key` in the current language; empty for an
/// unknown key.
pub fn get_string(setting: &LanguageSetting, key: &str) -> (r: String)
    ensures
        r@ == text_for(setting.current, key@),
{
    match get_language(setting) {
        Language::Japanese => get_japanese(key).to_owned(),
        Language::English => get_english(key).to_owned(),
    }
}

/// Whether two strings hold the same characters, compared byte by byte.
pub fn same_text(a: &str, b: &str) -> (r: bool)
    ensures
        r == (a@ == b@),
{
    let x = a.as_bytes();
    let y = b.as_bytes();
    proof {
        encode_utf8_decode_utf8(a@);
        encode_utf8_decode_utf8(b@);
    }
    if x.len() != y.len() {
        return false;
    }
    let mut i: usize = 0;
    while i < x.len()
        invariant
            x@.len() == y@.len(),
            x@ == encode_utf8(a@),
            y@ == encode_utf8(b@),
            i <= x@.len(),
            forall|j: int| 0 <= j < i ==> x@[j] == y@[j],
        decreases x.len() - i,
    {
        if x[i] != y[i] {
            return false;
        }
        i = i + 1;
    }
    assert(x@ =~= y@);
    true
}

/// The English interface strings.
pub open spec fn english_text(key: Seq<char>) -> Seq<char> {
    if key == "MENU_FILE"@ {
        "File(&F)"@
    } else if key == "MENU_EDIT"@ {
        "Edit(&E)"@
    } else if key == "MENU_VIEW"@ {
        "View(&V)"@
    } else if key == "MENU_NEW"@ {
        "New(&N)"@
    } else if key == "MENU_OPEN"@ {
        "Open(&O)"@
    } else if key == "MENU_SAVE"@ {
        "Save(&S)"@
    } else if key == "MENU_SAVEAS"@ {
        "Save As(&A)"@
    } else if key == "MENU_EXIT"@ {
        "Exit(&X)"@
    } else if key == "MENU_UNDO"@ {
        "Undo(&U)"@
    } else if key == "MENU_REDO"@ {
        "Redo(&R)"@
    } else if key == "MENU_COPY"@ {
        "Copy(&C)"@
    } else if key == "MENU_CUT"@ {
        "Cut(&X)"@
    } else if key == "MENU_PASTE"@ {
        "Paste(&V)"@
    } else if key == "MENU_DELETE"@ {
        "Delete(&D)"@
    } else if key == "MENU_SELECTALL"@ {
        "Select All(&A)"@
    } else if key == "MENU_WORDWRAP"@ {
        "Word Wrap(&W)"@
    } else if key == "MENU_STATUSBAR"@ {
        "Status Bar(&B)"@
    } else if key == "MENU_ZOOMIN"@ {
        "Zoom In(&I)"@
    } else if key == "MENU_ZOOMOUT"@ {
        "Zoom Out(&O)"@
    } else if key == "CONTEXT_UNDO"@ {
        "Undo (Ctrl+Z)"@
    } else if key == "CONTEXT_REDO"@ {
        "Redo (Ctrl+Y)"@
    } else if key == "CONTEXT_CUT"@ {
        "Cut (Ctrl+X)"@
    } else if key == "CONTEXT_COPY"@ {
        "Copy (Ctrl+C)"@
    } else if key == "CONTEXT_PASTE"@ {
        "Paste (Ctrl+V)"@
    } else if key == "CONTEXT_DELETE"@ {
        "Delete (Del)"@
    } else if key == "CONTEXT_SELECTALL"@ {
        "Select All (Ctrl+A)"@
    } else if key == "WINDOW_TITLE"@ {
        "Normal Notepad"@
    } else if key == "FILE_UNTITLED"@ {
        "Untitled"@
    } else if key == "FILE_DIALOG_OPEN"@ {
        "Open File"@
    } else if key == "FILE_DIALOG_SAVE"@ {
        "Save File"@
    } else if key == "FILE_FILTER_ALL"@ {
        "All Files (*.*)"@
    } else if key == "FILE_FILTER_TEXT"@ {
        "Text Files (*.txt)"@
    } else if key == "FILE_ENCODING"@ {
        "Encoding:"@
    } else if key == "ENCODING_AUTO"@ {
        "Auto"@
    } else if key == "ENCODING_ANSI"@ {
        "ANSI"@
    } else if key == "STATUS_LINE_COL"@ {
        "Ln {line}, Col {col}"@
    } else if key == "STATUS_CHAR_COUNT"@ {
        "{count} characters"@
    } else {
        ""@
    }
}

/// The Japanese interface strings.
pub open spec fn japanese_text(key: Seq<char>) -> Seq<char> {
    if key == "MENU_FILE"@ {
        "ファイル(&F)"@
    } else if key == "MENU_EDIT"@ {
        "編集(&E)"@
    } else if key == "MENU_VIEW"@ {
        "表示(&V)"@
    } else if key == "MENU_NEW"@ {
        "新規(&N)"@
    } else if key == "MENU_OPEN"@ {
        "開く(&O)"@
    } else if key == "MENU_SAVE"@ {
        "上書き保存(&S)"@
    } else if key == "MENU_SAVEAS"@ {
        "名前を付けて保存(&A)"@
    } else if key == "MENU_EXIT"@ {
        "終了(&X)"@
    } else if key == "MENU_UNDO"@ {
        "元に戻す(&U)"@
    } else if key == "MENU_REDO"@ {
        "やり直し(&R)"@
    } else if key == "MENU_COPY"@ {
        "コピー(&C)"@
    } else if key == "MENU_CUT"@ {
        "切り取り(&X)"@
    } else if key == "MENU_PASTE"@ {
        "貼り付け(&V)"@
    } else if key == "MENU_DELETE"@ {
        "削除(&D)"@
    } else if key == "MENU_SELECTALL"@ {
        "すべて選択(&A)"@
    } else if key == "MENU_WORDWRAP"@ {
        "右端で折り返す(&W)"@
    } else if key == "MENU_STATUSBAR"@ {
        "ステータスバー(&B)"@
    } else if key == "MENU_ZOOMIN"@ {
        "拡大(&I)"@
    } else if key == "MENU_ZOOMOUT"@ {
        "縮小(&O)"@
    } else if key == "CONTEXT_UNDO"@ {
        "元に戻す (Ctrl+Z)"@
    } else if key == "CONTEXT_REDO"@ {
        "やり直し (Ctrl+Y)"@
    } else if key == "CONTEXT_CUT"@ {
        "切り取り (Ctrl+X)"@
    } else if key == "CONTEXT_COPY"@ {
        "コピー (Ctrl+C)"@
    } else if key == "CONTEXT_PASTE"@ {
        "貼り付け (Ctrl+V)"@
    } else if key == "CONTEXT_DELETE"@ {
        "削除 (Del)"@
    } else if key == "CONTEXT_SELECTALL"@ {
        "すべて選択 (Ctrl+A)"@
    } else if key == "WINDOW_TITLE"@ {
        "普通のメモ帳"@
    } else if key == "FILE_UNTITLED"@ {
        "無題"@
    } else if key == "FILE_DIALOG_OPEN"@ {
        "ファイルを開く"@
    } else if key == "FILE_DIALOG_SAVE"@ {
        "ファイルを保存"@
    } else if key == "FILE_FILTER_ALL"@ {
        "すべてのファイル (*.*)"@
    } else if key == "FILE_FILTER_TEXT"@ {
        "テキストファイル (*.txt)"@
    } else if key == "FILE_ENCODING"@ {
        "エンコード:"@
    } else if key == "ENCODING_AUTO"@ {
        "自動検出"@
    } else if key == "ENCODING_ANSI"@ {
        "Shift-JIS"@
    } else if key == "STATUS_LINE_COL"@ {
        "行 {line}、列 {col}"@
    } else if key == "STATUS_CHAR_COUNT"@ {
        "{count} 文字"@
    } else {
        ""@
    }
}

/// The English string for `key`.
pub fn get_english(key: &str) -> (r: &'static str)
    ensures
        r@ == english_text(key@),
{
    if same_text(key, "MENU_FILE") {
        "File(&F)"
    } else if same_text(key, "MENU_EDIT") {
        "Edit(&E)"
    } else if same_text(key, "MENU_VIEW") {
        "View(&V)"
    } else if same_text(key, "MENU_NEW") {
        "New(&N)"
    } else if same_text(key, "MENU_OPEN") {
        "Open(&O)"
    } else if same_text(key, "MENU_SAVE") {
        "Save(&S)"
    } else if same_text(key, "MENU_SAVEAS") {
        "Save As(&A)"
    } else if same_text(key, "MENU_EXIT") {
        "Exit(&X)"
    } else if same_text(key, "MENU_UNDO") {
        "Undo(&U)"
    } else if same_text(key, "MENU_REDO") {
        "Redo(&R)"
    } else if same_text(key, "MENU_COPY") {
        "Copy(&C)"
    } else if same_text(key, "MENU_CUT") {
        "Cut(&X)"
    } else if same_text(key, "MENU_PASTE") {
        "Paste(&V)"
    } else if same_text(key, "MENU_DELETE") {
        "Delete(&D)"
    } else if same_text(key, "MENU_SELECTALL") {
        "Select All(&A)"
    } else if same_text(key, "MENU_WORDWRAP") {
        "Word Wrap(&W)"
    } else if same_text(key, "MENU_STATUSBAR") {
        "Status Bar(&B)"
    } else if same_text(key, "MENU_ZOOMIN") {
        "Zoom In(&I)"
    } else if same_text(key, "MENU_ZOOMOUT") {
        "Zoom Out(&O)"
    } else if same_text(key, "CONTEXT_UNDO") {
        "Undo (Ctrl+Z)"
    } else if same_text(key, "CONTEXT_REDO") {
        "Redo (Ctrl+Y)"
    } else if same_text(key, "CONTEXT_CUT") {
        "Cut (Ctrl+X)"
    } else if same_text(key, "CONTEXT_COPY") {
        "Copy (Ctrl+C)"
    } else if same_text(key, "CONTEXT_PASTE") {
        "Paste (Ctrl+V)"
    } else if same_text(key, "CONTEXT_DELETE") {
        "Delete (Del)"
    } else if same_text(key, "CONTEXT_SELECTALL") {
        "Select All (Ctrl+A)"
    } else if same_text(key, "WINDOW_TITLE") {
        "Normal Notepad"
    } else if same_text(key, "FILE_UNTITLED") {
        "Untitled"
    } else if same_text(key, "FILE_DIALOG_OPEN") {
        "Open File"
    } else if same_text(key, "FILE_DIALOG_SAVE") {
        "Save File"
    } else if same_text(key, "FILE_FILTER_ALL") {
        "All Files (*.*)"
    } else if same_text(key, "FILE_FILTER_TEXT") {
        "Text Files (*.txt)"
    } else if same_text(key, "FILE_ENCODING") {
        "Encoding:"
    } else if same_text(key, "ENCODING_AUTO") {
        "Auto"
    } else if same_text(key, "ENCODING_ANSI") {
        "ANSI"
    } else if same_text(key, "STATUS_LINE_COL") {
        "Ln {line}, Col {col}"
    } else if same_text(key, "STATUS_CHAR_COUNT") {
        "{count} characters"
    } else {
        ""
    }
}

/// The Japanese string for `key`.
pub fn get_japanese(key: &str) -> (r: &'static str)
    ensures
        r@ == japanese_text(key@),
{
    if same_text(key, "MENU_FILE") {
        "ファイル(&F)"
    } else if same_text(key, "MENU_EDIT") {
        "編集(&E)"
    } else if same_text(key, "MENU_VIEW") {
        "表示(&V)"
    } else if same_text(key, "MENU_NEW") {
        "新規(&N)"
    } else if same_text(key, "MENU_OPEN") {
        "開く(&O)"
    } else if same_text(key, "MENU_SAVE") {
        "上書き保存(&S)"
    } else if same_text(key, "MENU_SAVEAS") {
        "名前を付けて保存(&A)"
    } else if same_text(key, "MENU_EXIT") {
        "終了(&X)"
    } else if same_text(key, "MENU_UNDO") {
        "元に戻す(&U)"
    } else if same_text(key, "MENU_REDO") {
        "やり直し(&R)"
    } else if same_text(key, "MENU_COPY") {
        "コピー(&C)"
    } else if same_text(key, "MENU_CUT") {
        "切り取り(&X)"
    } else if same_text(key, "MENU_PASTE") {
        "貼り付け(&V)"
    } else if same_text(key, "MENU_DELETE") {
        "削除(&D)"
    } else if same_text(key, "MENU_SELECTALL") {
        "すべて選択(&A)"
    } else if same_text(key, "MENU_WORDWRAP") {
        "右端で折り返す(&W)"
    } else if same_text(key, "MENU_STATUSBAR") {
        "ステータスバー(&B)"
    } else if same_text(key, "MENU_ZOOMIN") {
        "拡大(&I)"
    } else if same_text(key, "MENU_ZOOMOUT") {
        "縮小(&O)"
    } else if same_text(key, "CONTEXT_UNDO") {
        "元に戻す (Ctrl+Z)"
    } else if same_text(key, "CONTEXT_REDO") {
        "やり直し (Ctrl+Y)"
    } else if same_text(key, "CONTEXT_CUT") {
        "切り取り (Ctrl+X)"
    } else if same_text(key, "CONTEXT_COPY") {
        "コピー (Ctrl+C)"
    } else if same_text(key, "CONTEXT_PASTE") {
        "貼り付け (Ctrl+V)"
    } else if same_text(key, "CONTEXT_DELETE") {
        "削除 (Del)"
    } else if same_text(key, "CONTEXT_SELECTALL") {
        "すべて選択 (Ctrl+A)"
    } else if same_text(key, "WINDOW_TITLE") {
        "普通のメモ帳"
    } else if same_text(key, "FILE_UNTITLED") {
        "無題"
    } else if same_text(key, "FILE_DIALOG_OPEN") {
        "ファイルを開く"
    } else if same_text(key, "FILE_DIALOG_SAVE") {
        "ファイルを保存"
    } else if same_text(key, "FILE_FILTER_ALL") {
        "すべてのファイル (*.*)"
    } else if same_text(key, "FILE_FILTER_TEXT") {
        "テキストファイル (*.txt)"
    } else if same_text(key, "FILE_ENCODING") {
        "エンコード:"
    } else if same_text(key, "ENCODING_AUTO") {
        "自動検出"
    } else if same_text(key, "ENCODING_ANSI") {
        "Shift-JIS"
    } else if same_text(key, "STATUS_LINE_COL") {
        "行 {line}、列 {col}"
    } else if same_text(key, "STATUS_CHAR_COUNT") {
        "{count} 文字"
    } else {
        ""
    }
}

} // verus!
