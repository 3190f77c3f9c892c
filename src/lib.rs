//! Cursor line/column mapping and encoding-aware text load/save for a plain
//! text editor, with the editor's localisation tables and display state.

pub mod codec;
pub mod document;
pub mod file_dialog;
pub mod i18n;
pub mod line_column;
pub mod menu;
pub mod status_bar;
pub mod theme;
pub mod unicode;
