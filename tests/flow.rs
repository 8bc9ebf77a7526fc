use tasklist::flow::{Flow, Outcome, Verb};
use tasklist::model::{Task, Todo};

fn todo_of(items: &[(&str, bool)]) -> Todo {
    Todo::from_tasks(
        items.iter().map(|(d, c)| Task { description: d.to_string(), completed: *c }).collect(),
    )
}

fn pairs(t: &Todo) -> Vec<(String, bool)> {
    t.list_tasks().into_iter().map(|t| (t.description, t.completed)).collect()
}

#[test]
fn no_tasks_ends_at_once() {
    let t = Todo::empty();
    for verb in [Verb::Edit, Verb::Complete, Verb::Remove] {
        assert_eq!(t.begin(verb), Flow::Finished(Outcome::NoTasks));
    }
}

#[test]
fn edit_completed_task_decline_reopen() {
    let mut t = todo_of(&[("A", true)]);
    let f = t.begin(Verb::Edit);
    assert_eq!(f, Flow::ConfirmOnly(Verb::Edit));
    let f = t.answer(f, true);
    assert_eq!(f, Flow::ConfirmEdit(0));
    let f = t.answer(f, true);
    assert_eq!(f, Flow::EnterText(0));
    let f = t.enter_text(f, "B".to_string());
    assert_eq!(f, Flow::ConfirmReopen(0));
    let f = t.answer(f, false);
    assert_eq!(f, Flow::Finished(Outcome::Edited));
    assert_eq!(pairs(&t), vec![("B".to_string(), true)]);
}

#[test]
fn edit_completed_task_accept_reopen() {
    let mut t = todo_of(&[("A", true), ("C", false)]);
    let f = t.begin(Verb::Edit);
    assert_eq!(f, Flow::Select(Verb::Edit));
    let f = t.pick(f, 1);
    let f = t.answer(f, true);
    let f = t.enter_text(f, "B".to_string());
    let f = t.answer(f, true);
    assert_eq!(f, Flow::Finished(Outcome::Edited));
    assert_eq!(pairs(&t), vec![("B".to_string(), false), ("C".to_string(), false)]);
}

#[test]
fn edit_completed_task_decline_edit() {
    let mut t = todo_of(&[("A", true)]);
    let f = t.begin(Verb::Edit);
    let f = t.answer(f, true);
    let f = t.answer(f, false);
    assert_eq!(f, Flow::Finished(Outcome::Aborted));
    assert_eq!(pairs(&t), vec![("A".to_string(), true)]);
}

#[test]
fn edit_unfinished_task_asks_no_question() {
    let mut t = todo_of(&[("A", false), ("C", true)]);
    let f = t.pick(t.begin(Verb::Edit), 1);
    assert_eq!(f, Flow::EnterText(0));
    let f = t.enter_text(f, "Z".to_string());
    assert_eq!(f, Flow::Finished(Outcome::Edited));
    assert_eq!(pairs(&t), vec![("Z".to_string(), false), ("C".to_string(), true)]);
}

#[test]
fn remove_unfinished_task_decline() {
    let mut t = todo_of(&[("A", false)]);
    let f = t.begin(Verb::Remove);
    let f = t.answer(f, true);
    assert_eq!(f, Flow::ConfirmRemove(0));
    let f = t.answer(f, false);
    assert_eq!(f, Flow::Finished(Outcome::Aborted));
    assert_eq!(pairs(&t), vec![("A".to_string(), false)]);
}

#[test]
fn remove_unfinished_task_accept() {
    let mut t = todo_of(&[("A", false), ("B", false)]);
    let f = t.pick(t.begin(Verb::Remove), 1);
    let f = t.answer(f, true);
    assert_eq!(f, Flow::Finished(Outcome::Removed));
    assert_eq!(pairs(&t), vec![("B".to_string(), false)]);
}

#[test]
fn remove_completed_task_asks_nothing() {
    let mut t = todo_of(&[("A", false), ("B", true), ("C", false)]);
    let f = t.pick(t.begin(Verb::Remove), 2);
    assert_eq!(f, Flow::Finished(Outcome::Removed));
    assert_eq!(pairs(&t), vec![("A".to_string(), false), ("C".to_string(), false)]);
}

#[test]
fn single_task_complete_decline() {
    let mut t = todo_of(&[("Only", false)]);
    let f = t.begin(Verb::Complete);
    assert_eq!(f, Flow::ConfirmOnly(Verb::Complete));
    let f = t.answer(f, false);
    assert_eq!(f, Flow::Finished(Outcome::Aborted));
    assert_eq!(pairs(&t), vec![("Only".to_string(), false)]);
}

#[test]
fn single_task_complete_accept() {
    let mut t = todo_of(&[("Only", false)]);
    let f = t.begin(Verb::Complete);
    let f = t.answer(f, true);
    assert_eq!(f, Flow::Finished(Outcome::Completed));
    assert_eq!(pairs(&t), vec![("Only".to_string(), true)]);
}

#[test]
fn complete_done_task_is_silent() {
    let mut t = todo_of(&[("A", true), ("B", false)]);
    let f = t.pick(t.begin(Verb::Complete), 1);
    assert_eq!(f, Flow::Finished(Outcome::AlreadyCompleted));
    assert_eq!(pairs(&t), vec![("A".to_string(), true), ("B".to_string(), false)]);
}

#[test]
fn index_zero_aborts_and_out_of_range_asks_again() {
    let mut t = todo_of(&[("A", false), ("B", false)]);
    let f = t.begin(Verb::Complete);
    assert_eq!(t.pick(f, 3), f);
    assert_eq!(t.pick(f, 0), Flow::Finished(Outcome::Aborted));
    let done = t.pick(f, 2);
    assert_eq!(done, Flow::Finished(Outcome::Completed));
    assert_eq!(pairs(&t), vec![("A".to_string(), false), ("B".to_string(), true)]);
}

#[test]
fn mismatched_reply_leaves_stage() {
    let mut t = todo_of(&[("A", false), ("B", false)]);
    let f = t.begin(Verb::Edit);
    assert_eq!(t.answer(f, true), f);
    assert_eq!(t.enter_text(f, "x".to_string()), f);
    assert_eq!(pairs(&t), vec![("A".to_string(), false), ("B".to_string(), false)]);
}
