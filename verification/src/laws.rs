//! What always holds of the task list, proved from the definitions that the
//! operations' contracts are stated over.

use vstd::prelude::*;
use crate::error::TodoError;
use crate::model::added;
use crate::model::applied;
use crate::model::completed;
use crate::model::deleted;
use crate::model::load_refusal;
use crate::model::loaded;
use crate::model::numbered;
use crate::model::refusal;
use crate::model::renumbered;
use crate::model::valid_id;
use crate::model::well_formed;
use crate::model::Request;
use crate::model::Stored;
use crate::task::Status;
use crate::task::TodoView;

verus! {

/// The list that results from adding tasks with these titles, one after
/// the other, to an empty list.
pub open spec fn after_adds(titles: Seq<Seq<char>>) -> Seq<TodoView>
    decreases titles.len(),
{
    if titles.len() == 0 {
        Seq::<TodoView>::empty()
    } else {
        added(after_adds(titles.drop_last()), titles.last())
    }
}

/// Renumbering keeps the length, the order, the titles and the statuses,
/// and gives every record the id of its position. A list that is numbered
/// already is left as it is; so renumbering twice is renumbering once.
pub proof fn law_renumbering(s: Seq<TodoView>)
    ensures
        renumbered(s).len() == s.len(),
        numbered(renumbered(s)),
        forall|i: int|
            0 <= i < s.len() ==> (#[trigger] renumbered(s)[i]).title == s[i].title
                && renumbered(s)[i].status == s[i].status,
        well_formed(s) ==> well_formed(renumbered(s)),
        numbered(s) ==> renumbered(s) == s,
        renumbered(renumbered(s)) == renumbered(s),
{
}

/// After any request the id of every record is its position, whether the
/// request was carried out or refused. A list without empty titles stays
/// so, as long as no task is added with an empty title.
pub proof fn law_requests_keep_ids_in_order(s: Seq<TodoView>, request: Request)
    ensures
        numbered(applied(s, request)),
        well_formed(s) && (request matches Request::Add(title) ==> title.len() > 0)
            ==> well_formed(applied(s, request)),
{
}

/// No request changes a title or turns a completed task back into a
/// pending one. Unless a record is the one deleted, it is found after the
/// request with its title, and completed if it was; it has moved up by one
/// place if the deleted record stood in front of it.
pub proof fn law_no_request_reopens_a_task(s: Seq<TodoView>, request: Request, i: int)
    requires
        0 <= i < s.len(),
    ensures
        (match request {
            Request::Delete(id) if valid_id(s, id) => i != id - 1 ==> {
                let to = if i < id - 1 {
                    i
                } else {
                    i - 1
                };
                &&& applied(s, request)[to].title == s[i].title
                &&& applied(s, request)[to].status == s[i].status
            },
            _ => {
                &&& applied(s, request)[i].title == s[i].title
                &&& s[i].status == Status::COMPLETED ==> applied(s, request)[i].status
                    == Status::COMPLETED
            },
        }),
{
}

/// Adding a task lengthens the list by one record: the new task, pending,
/// under its title, with the new length as its id. The records before it
/// keep their titles and statuses.
pub proof fn law_add_appends_a_pending_task(s: Seq<TodoView>, title: Seq<char>)
    ensures
        added(s, title).len() == s.len() + 1,
        added(s, title).last() == (TodoView {
            id: s.len() + 1,
            title: title,
            status: Status::PENDING,
        }),
        forall|i: int|
            0 <= i < s.len() ==> (#[trigger] added(s, title)[i]).title == s[i].title && added(
                s,
                title,
            )[i].status == s[i].status,
{
}

/// Adding tasks to an empty list and then listing it gives as many records
/// as there were additions, in the order of the additions, with the ids
/// 1, 2, 3 and so on, each pending and under its own title.
pub proof fn law_adds_are_listed_in_order(titles: Seq<Seq<char>>)
    ensures
        renumbered(after_adds(titles)).len() == titles.len(),
        forall|i: int|
            0 <= i < titles.len() ==> #[trigger] renumbered(after_adds(titles))[i] == (TodoView {
                id: (i + 1) as nat,
                title: titles[i],
                status: Status::PENDING,
            }),
    decreases titles.len(),
{
    if titles.len() > 0 {
        let earlier = titles.drop_last();
        law_adds_are_listed_in_order(earlier);
        let rows = renumbered(after_adds(titles));
        assert forall|i: int| 0 <= i < titles.len() implies #[trigger] rows[i] == (TodoView {
            id: (i + 1) as nat,
            title: titles[i],
            status: Status::PENDING,
        }) by {
            if i < earlier.len() {
                assert(renumbered(after_adds(earlier))[i].title == earlier[i]);
            }
        }
    }
}

/// Completing a task that is completed already is not refused and leaves
/// it completed: nothing changes but the renumbering that every request
/// ends with.
pub proof fn law_complete_twice_is_complete_once(s: Seq<TodoView>, id: nat)
    requires
        valid_id(s, id),
        s[id - 1].status == Status::COMPLETED,
    ensures
        refusal(s, Request::Complete(id)) is None,
        applied(s, Request::Complete(id))[id - 1].status == Status::COMPLETED,
        applied(s, Request::Complete(id)) == renumbered(s),
{
}

/// Completing a task marks it as done and touches no other record's title
/// or status; a second completion of the same id then changes nothing.
pub proof fn law_complete(s: Seq<TodoView>, id: nat)
    requires
        valid_id(s, id),
    ensures
        completed(s, id).len() == s.len(),
        completed(s, id)[id - 1].status == Status::COMPLETED,
        forall|i: int|
            0 <= i < s.len() ==> (#[trigger] completed(s, id)[i]).title == s[i].title,
        forall|i: int|
            0 <= i < s.len() && i != id - 1 ==> (#[trigger] completed(s, id)[i]).status
                == s[i].status,
        applied(completed(s, id), Request::Complete(id)) == completed(s, id),
{
}

/// Deleting the record with id `k` from a list of `n` records leaves
/// `n - 1` records. The records in front of it keep their ids; each record
/// behind it keeps its title and status and has its id lowered by one.
pub proof fn law_delete_shifts_later_ids(s: Seq<TodoView>, k: nat)
    requires
        valid_id(s, k),
    ensures
        deleted(s, k).len() == s.len() - 1,
        forall|i: int| 0 <= i < k - 1 ==> #[trigger] deleted(s, k)[i] == renumbered(s)[i],
        forall|i: int|
            k <= i < s.len() ==> (#[trigger] renumbered(s)[i]).id - 1 == deleted(s, k)[i - 1].id
                && renumbered(s)[i].title == deleted(s, k)[i - 1].title && renumbered(s)[i].status
                == deleted(s, k)[i - 1].status,
{
}

/// What saving hands out loads back into an empty list as the same
/// sequence of records: the same titles, statuses and ids, in the same
/// order.
pub proof fn law_saved_records_load_back(s: Seq<TodoView>)
    requires
        well_formed(s),
    ensures
        load_refusal(Stored::Records(renumbered(s))) is None,
        loaded(Seq::<TodoView>::empty(), Stored::Records(renumbered(s))) == renumbered(s),
{
}

/// The id just past the end names no record, and neither does 0.
pub proof fn law_id_past_the_end_is_invalid(s: Seq<TodoView>)
    ensures
        !valid_id(s, s.len() + 1),
        !valid_id(s, 0),
        refusal(s, Request::Complete(s.len() + 1)) == Some(TodoError::InvalidId),
        refusal(s, Request::Delete(s.len() + 1)) == Some(TodoError::InvalidId),
{
}

/// An id that names no record is refused as invalid by completion and by
/// deletion alike. The list then keeps its length and every title and
/// status; if its ids were in order, it is unchanged.
pub proof fn law_invalid_id_changes_nothing(s: Seq<TodoView>, id: nat)
    requires
        !valid_id(s, id),
    ensures
        refusal(s, Request::Complete(id)) == Some(TodoError::InvalidId),
        refusal(s, Request::Delete(id)) == Some(TodoError::InvalidId),
        applied(s, Request::Complete(id)) == renumbered(s),
        applied(s, Request::Delete(id)) == renumbered(s),
        renumbered(s).len() == s.len(),
        forall|i: int|
            0 <= i < s.len() ==> (#[trigger] renumbered(s)[i]).title == s[i].title
                && renumbered(s)[i].status == s[i].status,
        numbered(s) ==> renumbered(s) == s,
{
}

} // verus!
