//! The task list as a mathematical sequence, and what each operation makes
//! of it. The contracts of the executable operations are stated over the
//! functions of this module.

use vstd::prelude::*;
use crate::error::TodoError;
use crate::task::Status;
use crate::task::TodoView;

verus! {

/// Every record carries a title that is not empty.
pub open spec fn well_formed(s: Seq<TodoView>) -> bool {
    forall|i: int| 0 <= i < s.len() ==> (#[trigger] s[i]).title.len() > 0
}

/// Every record's id is its 1-based position.
pub open spec fn numbered(s: Seq<TodoView>) -> bool {
    forall|i: int| 0 <= i < s.len() ==> (#[trigger] s[i]).id == i + 1
}

/// The same records in the same order, each with its id recomputed from
/// its position.
pub open spec fn renumbered(s: Seq<TodoView>) -> Seq<TodoView> {
    Seq::new(
        s.len(),
        |i: int| TodoView { id: (i + 1) as nat, title: s[i].title, status: s[i].status },
    )
}

/// An id names a record when it lies between 1 and the number of records.
pub open spec fn valid_id(s: Seq<TodoView>, id: nat) -> bool {
    1 <= id <= s.len()
}

/// The record that a new task with this title starts as.
pub open spec fn fresh(title: Seq<char>) -> TodoView {
    TodoView { id: 0, title: title, status: Status::PENDING }
}

/// The list after a task with this title was added at its end.
pub open spec fn added(s: Seq<TodoView>, title: Seq<char>) -> Seq<TodoView> {
    renumbered(s.push(fresh(title)))
}

/// The list after the record at position `id` was marked as done.
pub open spec fn completed(s: Seq<TodoView>, id: nat) -> Seq<TodoView>
    recommends
        valid_id(s, id),
{
    let at = id - 1;
    renumbered(
        s.update(at, TodoView { id: s[at].id, title: s[at].title, status: Status::COMPLETED }),
    )
}

/// The list after the record at position `id` was taken out; the records
/// behind it move up by one.
pub open spec fn deleted(s: Seq<TodoView>, id: nat) -> Seq<TodoView>
    recommends
        valid_id(s, id),
{
    renumbered(s.remove(id - 1))
}

/// What the persisted location held, as values.
pub enum Stored {
    /// Nothing has been persisted yet.
    Absent,
    /// Something is there, but it could not be read as a list of records.
    Unreadable,
    /// The records that were read, in their persisted order.
    Records(Seq<TodoView>),
}

/// The error with which persisted content is refused, if it is: content
/// that could not be read, or that holds a record without a title, is
/// corrupt.
pub open spec fn load_refusal(found: Stored) -> Option<TodoError> {
    match found {
        Stored::Absent => None,
        Stored::Unreadable => Some(TodoError::CorruptStorage),
        Stored::Records(records) => if well_formed(records) {
            None
        } else {
            Some(TodoError::CorruptStorage)
        },
    }
}

/// The list after loading: valid records are appended verbatim, and
/// anything else leaves the list as it was.
pub open spec fn loaded(s: Seq<TodoView>, found: Stored) -> Seq<TodoView> {
    match found {
        Stored::Records(records) => if well_formed(records) {
            s + records
        } else {
            s
        },
        _ => s,
    }
}

/// What an invocation asks for.
pub enum Request {
    /// Show all records.
    List,
    /// Add a task with this title.
    Add(Seq<char>),
    /// Mark the record with this id as done.
    Complete(nat),
    /// Take the record with this id out.
    Delete(nat),
}

/// The error with which a request is refused on this list, if it is.
pub open spec fn refusal(s: Seq<TodoView>, request: Request) -> Option<TodoError> {
    match request {
        Request::List => None,
        Request::Add(_) => None,
        Request::Complete(id) => if valid_id(s, id) {
            None
        } else {
            Some(TodoError::InvalidId)
        },
        Request::Delete(id) => if valid_id(s, id) {
            None
        } else {
            Some(TodoError::InvalidId)
        },
    }
}

/// The list after a request. A refused request changes no record; like
/// every request, it leaves the records renumbered.
pub open spec fn applied(s: Seq<TodoView>, request: Request) -> Seq<TodoView> {
    match request {
        Request::List => renumbered(s),
        Request::Add(title) => added(s, title),
        Request::Complete(id) => if valid_id(s, id) {
            completed(s, id)
        } else {
            renumbered(s)
        },
        Request::Delete(id) => if valid_id(s, id) {
            deleted(s, id)
        } else {
            renumbered(s)
        },
    }
}

} // verus!
