//! A distraction-free single-document editor core: a document session with
//! an edit counter, and the debounced, version-guarded persistence machine
//! that drives it.

pub mod writing;
pub mod editor;
