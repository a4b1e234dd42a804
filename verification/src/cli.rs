//! The commands of the tool, as plain values.

pub use crate::category::Para;
use vstd::prelude::*;

verus! {

/// One invocation of the tool.
#[derive(Debug, Clone, PartialEq)]
#[allow(inconsistent_fields)]
pub enum Commands {
    /// Create the category directories in the current directory.
    Init { force: bool, numbered: bool },
    /// Create a new file or directory inside a category.
    New { variant: Para, name: String, file: bool },
    /// Send the entries at `paths` to the Archives.
    Archive { paths: Vec<String> },
    /// Show the whole layout, or one category's directory.
    Path { variant: Option<Para> },
    /// Move entries into a category.
    Move { destination: Para, subfolder: Option<String>, src: Vec<String> },
    /// Copy entries into a category.
    Copy { destination: Para, subfolder: Option<String>, src: Vec<String> },
}

} // verus!
