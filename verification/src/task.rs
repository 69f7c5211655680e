//! The task record and its completion status.

use vstd::prelude::*;

verus! {

/// Whether a task is still open or has been done. A task starts as
/// `PENDING` and can only move to `COMPLETED`.
#[allow(non_camel_case_types)]
#[derive(Clone, Copy, Debug, PartialEq, Eq, Structural)]
pub enum Status {
    PENDING,
    COMPLETED,
}

/// The colour in which a status is shown.
#[derive(Clone, Copy, Debug, PartialEq, Eq, Structural)]
pub enum StatusColor {
    Red,
    Green,
}

impl Status {
    /// The spelling of the status, as shown and as persisted.
    pub open spec fn label(self) -> Seq<char> {
        match self {
            Status::PENDING => "PENDING"@,
            Status::COMPLETED => "COMPLETED"@,
        }
    }

    /// The status written out.
    pub fn to_string(&self) -> (text: String)
        ensures
            text@ == self.label(),
    {
        match self {
            Status::PENDING => "PENDING".to_owned(),
            Status::COMPLETED => "COMPLETED".to_owned(),
        }
    }

    /// The colour of a status: red while the task is open, green once it is
    /// done.
    pub open spec fn shown_in(self) -> StatusColor {
        match self {
            Status::PENDING => StatusColor::Red,
            Status::COMPLETED => StatusColor::Green,
        }
    }

    /// Open tasks are shown in red, finished ones in green.
    pub fn color(&self) -> (color: StatusColor)
        ensures
            color == self.shown_in(),
    {
        match self {
            Status::PENDING => StatusColor::Red,
            Status::COMPLETED => StatusColor::Green,
        }
    }
}

/// The mathematical value of a task record.
pub struct TodoView {
    pub id: nat,
    pub title: Seq<char>,
    pub status: Status,
}

/// One entry of the task list. The id is the record's 1-based position in
/// the list, assigned by the list each time it is renumbered.
#[derive(Debug, PartialEq, Eq)]
pub struct Todo {
    pub id: usize,
    pub title: String,
    pub status: Status,
}

impl View for Todo {
    type V = TodoView;

    open spec fn view(&self) -> TodoView {
        TodoView { id: self.id as nat, title: self.title@, status: self.status }
    }
}

impl DeepView for Todo {
    type V = TodoView;

    open spec fn deep_view(&self) -> TodoView {
        self@
    }
}

impl Todo {
    /// A record is well formed when its title is not empty.
    pub open spec fn wf(&self) -> bool {
        self.title@.len() > 0
    }

    /// A pending task with the given title. Its id is 0 until the owning
    /// list numbers it.
    pub fn new(title: &str) -> (todo: Todo)
        requires
            title@.len() > 0,
        ensures
            todo@ == (TodoView { id: 0, title: title@, status: Status::PENDING }),
            todo.wf(),
    {
        Todo { id: 0, title: title.to_owned(), status: Status::PENDING }
    }
}

impl Clone for Todo {
    /// An independent copy of the record.
    fn clone(&self) -> (copy: Todo)
        ensures
            copy == *self,
    {
        Todo { id: self.id, title: self.title.clone(), status: self.status }
    }
}

} // verus!
