//! Engine of a terminal hex viewer and editor: a window of 16-byte rows onto a
//! file, a cursor on that grid, the text of the three panes, and single-byte
//! overwrites. The terminal and the file are driven by the caller; everything
//! here works on plain values.

pub mod editor;
pub mod error;
pub mod input;
pub mod layout;
pub mod options;
pub mod render;
pub mod util;
pub mod viewport;
pub mod widget;
