//! Facts about the open document: whether it has a name yet, whether it
//! differs from what was saved, the window title that shows both, and the
//! removal of embedded-object placeholders from its text.

use vstd::prelude::*;
use crate::i18n::{english_text, get_english, get_japanese, japanese_text, same_text};

verus! {

/// A file name is untitled when it is the untitled-document name of either
/// language.
pub fn is_untitled_file(file_name: &str) -> (r: bool)
    ensures
        r == (file_name@ == english_text("FILE_UNTITLED"@) || file_name@ == japanese_text(
            "FILE_UNTITLED"@,
        )),
{
    same_text(file_name, get_english("FILE_UNTITLED")) || same_text(
        file_name,
        get_japanese("FILE_UNTITLED"),
    )
}

/// Whether the text in the editor differs from the text last saved.
pub fn is_modified(saved: &str, current: &str) -> (r: bool)
    ensures
        r == (saved@ != current@),
{
    !same_text(saved, current)
}

/// The window title for a document: its file name, marked with a leading `*`
/// when modified, then ` - ` and the application name.
pub open spec fn title_of(file_name: Seq<char>, modified: bool, app_name: Seq<char>) -> Seq<char> {
    (if modified {
        seq!['*']
    } else {
        Seq::empty()
    }) + file_name + " - "@ + app_name
}

/// Builds the window title for a document.
pub fn window_title(file_name: &str, modified: bool, app_name: &str) -> (r: String)
    ensures
        r@ == title_of(file_name@, modified, app_name@),
{
    let mut title = String::new();
    if modified {
        title.append("*");
    }
    title.append(file_name);
    title.append(" - ");
    title.append(app_name);
    proof {
        reveal_strlit("*");
    }
    assert(title@ =~= title_of(file_name@, modified, app_name@));
    title
}

/// The code unit a rich edit control may leave for an embedded object.
pub const OLE_PLACEHOLDER: u16 = 0x0001;

/// Code units that stand for embedded objects rather than text: the object
/// replacement character, the replacement character and the control's own
/// placeholder.
pub open spec fn is_object_placeholder(u: u16) -> bool {
    u == 0xFFFC || u == OLE_PLACEHOLDER || u == 0xFFFD
}

/// Removes embedded-object placeholders from the UTF-16 text `units`, and
/// tells whether there were any.
pub fn strip_object_placeholders(units: &Vec<u16>) -> (r: (Vec<u16>, bool))
    ensures
        r.0@ == units@.filter(|u: u16| !is_object_placeholder(u)),
        r.1 == exists|i: int| 0 <= i < units@.len() && is_object_placeholder(#[trigger] units@[i]),
{
    let ghost keep = |u: u16| !is_object_placeholder(u);
    let mut kept: Vec<u16> = Vec::new();
    let mut found = false;
    let mut i: usize = 0;
    while i < units.len()
        invariant
            i <= units@.len(),
            keep == (|u: u16| !is_object_placeholder(u)),
            kept@ == units@.take(i as int).filter(keep),
            found == exists|j: int| 0 <= j < i && is_object_placeholder(#[trigger] units@[j]),
        decreases units.len() - i,
    {
        let u = units[i];
        proof {
            assert(units@.take(i + 1) =~= units@.take(i as int).push(u));
            units@.take(i as int).lemma_filter_push(u, keep);
        }
        if u == 0xFFFC || u == OLE_PLACEHOLDER || u == 0xFFFD {
            found = true;
        } else {
            kept.push(u);
        }
        i = i + 1;
    }
    assert(units@.take(i as int) =~= units@);
    (kept, found)
}

} // verus!
