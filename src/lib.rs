//! Status-line fragments for a text editor: a shortened directory path, a
//! human-readable file size, a word count, a git branch label and the
//! spell-checking toggle, each computed from plain values.
use vstd::prelude::*;

pub mod file_path;
pub mod fragments;
pub mod path;
pub mod size;
pub mod text;

verus! {

/// Windows this wide or narrower get the short forms of the fragments.
pub const NARROW_WIDTH: u32 = 80;

} // verus!
