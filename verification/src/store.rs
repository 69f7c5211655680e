//! The task list held in memory, and the operations on it.
//!
//! Ids are derived, not stored identity: every operation that lists or
//! changes the records ends by renumbering them, so that the id of the
//! record at position `n` (counting from 1) is `n`.

use vstd::prelude::*;
use crate::error::TodoError;
use crate::model::added;
use crate::model::applied;
use crate::model::load_refusal;
use crate::model::loaded;
use crate::model::refusal;
use crate::model::renumbered;
use crate::model::well_formed;
use crate::model::Request;
use crate::model::Stored;
use crate::task::Status;
use crate::task::Todo;
use crate::task::TodoView;

verus! {

/// What was found at the place where the list is persisted.
#[derive(Debug)]
pub enum Persisted {
    /// Nothing has been persisted yet.
    Absent,
    /// Something is there, but it could not be read as a list of records.
    Unreadable,
    /// The records that were read, in their persisted order.
    Records(Vec<Todo>),
}

impl View for Persisted {
    type V = Stored;

    open spec fn view(&self) -> Stored {
        match *self {
            Persisted::Absent => Stored::Absent,
            Persisted::Unreadable => Stored::Unreadable,
            Persisted::Records(records) => Stored::Records(records.deep_view()),
        }
    }
}

/// The ordered collection of task records of one invocation.
#[derive(Debug)]
pub struct TodoStorage {
    storage: Vec<Todo>,
}

impl View for TodoStorage {
    type V = Seq<TodoView>;

    closed spec fn view(&self) -> Seq<TodoView> {
        self.storage.deep_view()
    }
}

impl TodoStorage {
    /// The list is well formed when no record has an empty title.
    pub open spec fn wf(&self) -> bool {
        well_formed(self@)
    }

    /// An empty list.
    pub fn new() -> (todo_storage: TodoStorage)
        ensures
            todo_storage@ == Seq::<TodoView>::empty(),
            todo_storage.wf(),
    {
        let todo_storage = TodoStorage { storage: Vec::<Todo>::new() };
        todo_storage
    }

    /// The number of records.
    pub fn len(&self) -> (n: usize)
        ensures
            n == self@.len(),
    {
        self.storage.len()
    }

    /// A list in memory has no more records than the machine can count.
    pub proof fn lemma_len_fits(&self)
        ensures
            self@.len() <= usize::MAX,
    {
        vstd::std_specs::vec::axiom_spec_len(&self.storage);
    }

    /// The records in their current order, with the ids they carry now.
    pub fn todos(&self) -> (rows: &Vec<Todo>)
        ensures
            rows.deep_view() == self@,
    {
        &self.storage
    }

    /// Appends a record as it is; its id is not touched.
    pub fn store(&mut self, todo: Todo)
        ensures
            final(self)@ == old(self)@.push(todo@),
            old(self).wf() && todo.wf() ==> final(self).wf(),
    {
        self.storage.push(todo);
        assert(self@ =~= old(self)@.push(todo@));
    }

    /// Renumbers the list: gives every record the id of its position,
    /// counting from 1. Every operation that lists or changes the records
    /// ends with this step.
    pub fn renumber(&mut self)
        ensures
            final(self)@ == renumbered(old(self)@),
            old(self).wf() ==> final(self).wf(),
    {
        let n = self.storage.len();
        let mut i: usize = 0;
        while i < n
            invariant
                i <= n,
                n == self.storage@.len(),
                n == old(self).storage@.len(),
                forall|j: int|
                    0 <= j < i ==> (#[trigger] self.storage@[j])@ == renumbered(old(self)@)[j],
                forall|j: int| i <= j < n ==> #[trigger] self.storage@[j] == old(self).storage@[j],
            decreases n - i,
        {
            self.storage[i].id = i + 1;
            i += 1;
        }
    }

    /// A copy of the records in their current order.
    fn listing(&self) -> (rows: Vec<Todo>)
        ensures
            rows.deep_view() == self@,
    {
        let n = self.storage.len();
        let mut rows: Vec<Todo> = Vec::new();
        let mut i: usize = 0;
        while i < n
            invariant
                i <= n,
                n == self.storage@.len(),
                rows@.len() == i,
                forall|j: int| 0 <= j < i ==> #[trigger] rows@[j] == self.storage@[j],
            decreases n - i,
        {
            rows.push(self.storage[i].clone());
            i += 1;
        }
        rows
    }

    /// Takes over what was found at the persisted location. Records are
    /// appended verbatim, in their order. Content that is unreadable, or
    /// that holds a record without a title, is refused and leaves the list
    /// as it was.
    pub fn load_todos_from_storage_dir(&mut self, found: Persisted) -> (result: Result<
        (),
        TodoError,
    >)
        ensures
            final(self)@ == loaded(old(self)@, found@),
            result == (match load_refusal(found@) {
                None => Ok::<(), TodoError>(()),
                Some(error) => Err::<(), TodoError>(error),
            }),
            old(self).wf() ==> final(self).wf(),
    {
        match found {
            Persisted::Absent => Ok(()),
            Persisted::Unreadable => Err(TodoError::CorruptStorage),
            Persisted::Records(mut records) => {
                if !all_titled(&records) {
                    return Err(TodoError::CorruptStorage);
                }
                let ghost appended = records.deep_view();
                self.storage.append(&mut records);
                assert(self@ =~= old(self)@ + appended);
                Ok(())
            },
        }
    }

    /// Renumbers the records and hands out the copy that is to be
    /// persisted.
    pub fn save_todo_state_into_storage_dir(&mut self) -> (rows: Vec<Todo>)
        ensures
            final(self)@ == renumbered(old(self)@),
            rows.deep_view() == final(self)@,
            old(self).wf() ==> final(self).wf(),
    {
        self.renumber();
        self.listing()
    }

    /// Renumbers the records and hands out the copy that is to be shown.
    pub fn print_all_todos(&mut self) -> (rows: Vec<Todo>)
        ensures
            final(self)@ == renumbered(old(self)@),
            rows.deep_view() == final(self)@,
            old(self).wf() ==> final(self).wf(),
    {
        self.renumber();
        self.listing()
    }
}

/// How an operation answers a request: with the records as they are after
/// it, or with the error for which it was refused.
pub open spec fn answers(
    result: Result<Vec<Todo>, TodoError>,
    refused: Option<TodoError>,
    after: Seq<TodoView>,
) -> bool {
    match refused {
        None => result is Ok && result->Ok_0.deep_view() == after,
        Some(error) => result == Err::<Vec<Todo>, TodoError>(error),
    }
}

/// Lists the records: renumbers them and hands out a copy to show.
pub fn get_all_todos(todo_storage: &mut TodoStorage) -> (rows: Vec<Todo>)
    ensures
        final(todo_storage)@ == renumbered(old(todo_storage)@),
        rows.deep_view() == final(todo_storage)@,
        old(todo_storage).wf() ==> final(todo_storage).wf(),
{
    todo_storage.print_all_todos()
}

/// Adds a pending task with the given title at the end of the list, where
/// it gets the new length as its id, and lists the records.
pub fn create_todo(todo_storage: &mut TodoStorage, title: &str) -> (rows: Vec<Todo>)
    requires
        title@.len() > 0,
    ensures
        final(todo_storage)@ == added(old(todo_storage)@, title@),
        rows.deep_view() == final(todo_storage)@,
        old(todo_storage).wf() ==> final(todo_storage).wf(),
{
    let todo = Todo::new(title);
    todo_storage.store(todo);
    get_all_todos(todo_storage)
}

/// Marks the record at position `id` as done and lists the records. An id
/// that names no record is refused; the records are then only renumbered.
pub fn update_todo(todo_storage: &mut TodoStorage, id: usize) -> (result: Result<
    Vec<Todo>,
    TodoError,
>)
    ensures
        final(todo_storage)@ == applied(old(todo_storage)@, Request::Complete(id as nat)),
        answers(
            result,
            refusal(old(todo_storage)@, Request::Complete(id as nat)),
            final(todo_storage)@,
        ),
        old(todo_storage).wf() ==> final(todo_storage).wf(),
{
    if id == 0 || id > todo_storage.storage.len() {
        todo_storage.renumber();
        return Err(TodoError::InvalidId);
    }
    todo_storage.storage[id - 1].status = Status::COMPLETED;
    Ok(get_all_todos(todo_storage))
}

/// Takes the record at position `id` out of the list and lists the rest,
/// renumbered. An id that names no record is refused; the records are then
/// only renumbered.
pub fn delete_todo(todo_storage: &mut TodoStorage, id: usize) -> (result: Result<
    Vec<Todo>,
    TodoError,
>)
    ensures
        final(todo_storage)@ == applied(old(todo_storage)@, Request::Delete(id as nat)),
        answers(
            result,
            refusal(old(todo_storage)@, Request::Delete(id as nat)),
            final(todo_storage)@,
        ),
        old(todo_storage).wf() ==> final(todo_storage).wf(),
{
    if id == 0 || id > todo_storage.storage.len() {
        todo_storage.renumber();
        return Err(TodoError::InvalidId);
    }
    let _ = todo_storage.storage.remove(id - 1);
    assert(todo_storage@ =~= old(todo_storage)@.remove(id - 1));
    Ok(get_all_todos(todo_storage))
}

/// Whether every record has a title.
fn all_titled(records: &Vec<Todo>) -> (yes: bool)
    ensures
        yes == well_formed(records.deep_view()),
{
    let n = records.len();
    let mut i: usize = 0;
    while i < n
        invariant
            i <= n,
            n == records@.len(),
            forall|j: int| 0 <= j < i ==> (#[trigger] records@[j]).wf(),
        decreases n - i,
    {
        if records[i].title.as_str().is_empty() {
            assert(records.deep_view()[i as int].title.len() == 0);
            return false;
        }
        i += 1;
    }
    true
}

} // verus!
