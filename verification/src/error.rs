//! The ways in which a request to the task list can fail, and what is owed
//! to the operator after each.

use vstd::prelude::*;

verus! {

/// Why an invocation did not do what was asked of it. Every failure ends
/// the invocation; nothing is tried again.
#[derive(Clone, Copy, Debug, PartialEq, Eq, Structural)]
pub enum TodoError {
    /// The persisted content exists but is not a valid collection of task
    /// records. Nothing may be changed or saved after this.
    CorruptStorage,
    /// The id names no record: it is 0 or exceeds the number of records.
    InvalidId,
    /// The command line has none of the accepted shapes.
    InvalidArguments,
}

impl TodoError {
    /// The words in which the failure is reported.
    pub open spec fn message_text(self) -> Seq<char> {
        match self {
            TodoError::CorruptStorage => {
                "The stored task list cannot be read; nothing was changed"@
            },
            TodoError::InvalidId => "Enter a valid id"@,
            TodoError::InvalidArguments => {
                "The operation was not success please give proper arguments \
                 according to the documentation"@
            },
        }
    }

    /// The failure in words, for the operator.
    pub fn message(&self) -> (text: String)
        ensures
            text@ == self.message_text(),
    {
        match self {
            TodoError::CorruptStorage => {
                "The stored task list cannot be read; nothing was changed".to_owned()
            },
            TodoError::InvalidId => "Enter a valid id".to_owned(),
            TodoError::InvalidArguments => {
                "The operation was not success please give proper arguments \
                 according to the documentation".to_owned()
            },
        }
    }

    /// Whether the current list is shown together with the failure: it is
    /// after an invalid id, and only then.
    pub fn shows_list(&self) -> (yes: bool)
        ensures
            yes == (*self == TodoError::InvalidId),
    {
        match self {
            TodoError::InvalidId => true,
            _ => false,
        }
    }

    /// Whether the list may still be persisted after the failure: it may,
    /// unless the persisted content was corrupt and would be lost.
    pub fn allows_save(&self) -> (yes: bool)
        ensures
            yes == (*self != TodoError::CorruptStorage),
    {
        match self {
            TodoError::CorruptStorage => false,
            _ => true,
        }
    }
}

} // verus!
