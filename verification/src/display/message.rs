//! The prefix that says what happened to the record a message shows.

use vstd::prelude::*;

verus! {

#[derive(Debug, Clone, Copy, PartialEq, Eq, Structural)]
pub enum Prefix {
    New,
    Update,
    Close,
}

impl Prefix {
    /// The word that the prefix shows.
    pub open spec fn label_text(self) -> Seq<char> {
        match self {
            Prefix::New => "New"@,
            Prefix::Update => "Updated"@,
            Prefix::Close => "Closed"@,
        }
    }

    /// The word that the prefix shows.
    pub fn label(&self) -> (text: &'static str)
        ensures
            text@ == self.label_text(),
    {
        match self {
            Prefix::New => "New",
            Prefix::Update => "Updated",
            Prefix::Close => "Closed",
        }
    }
}

} // verus!
