//! The list of notes kept beside the game, and the filters that show them.
use vstd::prelude::*;

verus! {

/// One note of the list.
pub struct Entry {
    pub description: String,
    pub completed: bool,
    pub editing: bool,
}

/// Which notes are shown.
#[derive(Clone, Copy, Debug, PartialEq, Eq, Structural)]
pub enum Filter {
    All,
    Active,
    Completed,
}

impl Filter {
    /// Whether this filter shows `entry`: every note, the open ones, or the
    /// completed ones.
    pub fn fit(&self, entry: &Entry) -> (r: bool)
        ensures
            r == match *self {
                Filter::All => true,
                Filter::Active => !entry.completed,
                Filter::Completed => entry.completed,
            },
    {
        match *self {
            Filter::All => true,
            Filter::Active => !entry.completed,
            Filter::Completed => entry.completed,
        }
    }
}

} // verus!
