use todo_list::Status;
use todo_list::StatusColor;
use todo_list::Todo;

#[test]
fn a_new_task_is_pending_and_not_yet_numbered() {
    let todo = Todo::new("buy milk");
    assert_eq!(todo.id, 0);
    assert_eq!(todo.title, "buy milk");
    assert_eq!(todo.status, Status::PENDING);
}

#[test]
fn a_new_task_keeps_its_title_letter_for_letter() {
    let todo = Todo::new("  Käse & Brot\t→ 2×  ");
    assert_eq!(todo.title, "  Käse & Brot\t→ 2×  ");
}

#[test]
fn a_clone_equals_the_record_it_was_made_from() {
    let todo = Todo { id: 3, title: "write report".to_string(), status: Status::COMPLETED };
    let copy = todo.clone();
    assert_eq!(copy, todo);
    assert_eq!(copy.id, 3);
    assert_eq!(copy.title, "write report");
    assert_eq!(copy.status, Status::COMPLETED);
}

#[test]
fn a_status_is_written_in_capitals() {
    assert_eq!(Status::PENDING.to_string(), "PENDING");
    assert_eq!(Status::COMPLETED.to_string(), "COMPLETED");
}

#[test]
fn pending_is_red_and_completed_is_green() {
    assert_eq!(Status::PENDING.color(), StatusColor::Red);
    assert_eq!(Status::COMPLETED.color(), StatusColor::Green);
}
