//! The kinds of buffer that a presence tells apart.

use vstd::prelude::*;

verus! {

/// What kind of buffer is open, with the name of its icon and its tooltip.
#[derive(Debug, Clone, Copy, PartialEq, Eq)]
pub enum Filetype<'a> {
    Language(&'a str, &'a str),
    FileBrowser(&'a str, &'a str),
    PluginManager(&'a str, &'a str),
    LSP(&'a str, &'a str),
}

} // verus!
