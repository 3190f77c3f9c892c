//! The encoding choice offered in the open and save dialogs: the entries of
//! the encoding list and how a selected entry maps to an encoding.

use vstd::prelude::*;
use crate::codec::FileEncoding;
use crate::i18n::{get_string, text_for, LanguageSetting};

verus! {

/// The encoding chosen by entry `selected` of the open dialog's list:
/// system code page, UTF-16 LE, UTF-16 BE, UTF-8, UTF-8 with mark, and
/// detection for the first entry or any other value.
pub open spec fn open_choice(selected: u32) -> FileEncoding {
    if selected == 1 {
        FileEncoding::ShiftJis
    } else if selected == 2 {
        FileEncoding::Utf16Le
    } else if selected == 3 {
        FileEncoding::Utf16Be
    } else if selected == 4 {
        FileEncoding::Utf8
    } else if selected == 5 {
        FileEncoding::Utf8Bom
    } else {
        FileEncoding::Auto
    }
}

/// The encoding chosen by entry `selected` of the save dialog's list:
/// system code page, UTF-16 LE, UTF-16 BE, UTF-8, UTF-8 with mark, and UTF-8
/// for any other value.
pub open spec fn save_choice(selected: u32) -> FileEncoding {
    if selected == 0 {
        FileEncoding::ShiftJis
    } else if selected == 1 {
        FileEncoding::Utf16Le
    } else if selected == 2 {
        FileEncoding::Utf16Be
    } else if selected == 4 {
        FileEncoding::Utf8Bom
    } else {
        FileEncoding::Utf8
    }
}

/// The entry of the save dialog's list that shows `e`; detection shows as UTF-8.
pub open spec fn save_entry(e: FileEncoding) -> u32 {
    match e {
        FileEncoding::ShiftJis => 0,
        FileEncoding::Utf16Le => 1,
        FileEncoding::Utf16Be => 2,
        FileEncoding::Utf8 | FileEncoding::Auto => 3,
        FileEncoding::Utf8Bom => 4,
    }
}

/// The encoding picked in the open dialog.
pub fn open_dialog_encoding(selected: u32) -> (r: FileEncoding)
    ensures
        r == open_choice(selected),
{
    match selected {
        1 => FileEncoding::ShiftJis,
        2 => FileEncoding::Utf16Le,
        3 => FileEncoding::Utf16Be,
        4 => FileEncoding::Utf8,
        5 => FileEncoding::Utf8Bom,
        _ => FileEncoding::Auto,
    }
}

/// The encoding picked in the save dialog.
pub fn save_dialog_encoding(selected: u32) -> (r: FileEncoding)
    ensures
        r == save_choice(selected),
{
    match selected {
        0 => FileEncoding::ShiftJis,
        1 => FileEncoding::Utf16Le,
        2 => FileEncoding::Utf16Be,
        4 => FileEncoding::Utf8Bom,
        _ => FileEncoding::Utf8,
    }
}

/// The entry of the save dialog's list selected at first for `encoding`.
pub fn save_dialog_default_index(encoding: FileEncoding) -> (r: u32)
    ensures
        r == save_entry(encoding),
{
    match encoding {
        FileEncoding::ShiftJis => 0,
        FileEncoding::Utf16Le => 1,
        FileEncoding::Utf16Be => 2,
        FileEncoding::Utf8 | FileEncoding::Auto => 3,
        FileEncoding::Utf8Bom => 4,
    }
}

/// Leaving the save dialog's preselected entry as it is keeps the current
/// encoding; detection becomes UTF-8.
pub proof fn lemma_save_default_keeps_encoding(e: FileEncoding)
    ensures
        save_choice(save_entry(e)) == if e == FileEncoding::Auto {
            FileEncoding::Utf8
        } else {
            e
        },
{
}

/// The labels of the open dialog's list, in order.
pub open spec fn open_labels(lang: crate::i18n::Language) -> Seq<Seq<char>> {
    seq![
        text_for(lang, "ENCODING_AUTO"@),
        text_for(lang, "ENCODING_ANSI"@),
        "UTF-16 LE"@,
        "UTF-16 BE"@,
        "UTF-8"@,
        "UTF-8 (BOM)"@,
    ]
}

/// The labels of the save dialog's list, in order.
pub open spec fn save_labels(lang: crate::i18n::Language) -> Seq<Seq<char>> {
    seq![text_for(lang, "ENCODING_ANSI"@), "UTF-16 LE"@, "UTF-16 BE"@, "UTF-8"@, "UTF-8 (BOM)"@]
}

/// The labels of the open dialog's encoding list, in the current language.
pub fn open_dialog_labels(setting: &LanguageSetting) -> (r: Vec<String>)
    ensures
        r@.map_values(|s: String| s@) == open_labels(setting.current),
{
    let mut r: Vec<String> = Vec::new();
    r.push(get_string(setting, "ENCODING_AUTO"));
    r.push(get_string(setting, "ENCODING_ANSI"));
    r.push("UTF-16 LE".to_owned());
    r.push("UTF-16 BE".to_owned());
    r.push("UTF-8".to_owned());
    r.push("UTF-8 (BOM)".to_owned());
    assert(r@.map_values(|s: String| s@) =~= open_labels(setting.current));
    r
}

/// The labels of the save dialog's encoding list, in the current language.
pub fn save_dialog_labels(setting: &LanguageSetting) -> (r: Vec<String>)
    ensures
        r@.map_values(|s: String| s@) == save_labels(setting.current),
{
    let mut r: Vec<String> = Vec::new();
    r.push(get_string(setting, "ENCODING_ANSI"));
    r.push("UTF-16 LE".to_owned());
    r.push("UTF-16 BE".to_owned());
    r.push("UTF-8".to_owned());
    r.push("UTF-8 (BOM)".to_owned());
    assert(r@.map_values(|s: String| s@) =~= save_labels(setting.current));
    r
}

} // verus!
