use vstd::prelude::*;
use crate::model::{MAX_TASK_LEN, TaskView, Todo, completed_at, removed_at};

verus! {

/// The operations that act on one chosen task.
#[derive(Clone, Copy, Debug, PartialEq, Eq, Structural)]
pub enum Verb {
    Edit,
    Complete,
    Remove,
}

/// How an operation ended.
#[derive(Clone, Copy, Debug, PartialEq, Eq, Structural)]
pub enum Outcome {
    /// The list was empty: nothing to act on.
    NoTasks,
    /// The user backed out; nothing changed.
    Aborted,
    /// The description was replaced.
    Edited,
    /// The task was marked done.
    Completed,
    /// The task was done already; nothing changed.
    AlreadyCompleted,
    /// The task was deleted.
    Removed,
}

/// Where an operation on one task stands, and so what the user is asked next.
#[derive(Clone, Copy, Debug, PartialEq, Eq, Structural)]
pub enum Flow {
    /// Asks for a task number, from 1, with 0 to back out.
    Select(Verb),
    /// The list holds one task: asks whether to act on it.
    ConfirmOnly(Verb),
    /// The task is done: asks whether to edit it still.
    ConfirmEdit(usize),
    /// Asks for the new description of the task.
    EnterText(usize),
    /// The edited task was done: asks whether to mark it unfinished.
    ConfirmReopen(usize),
    /// The task is unfinished: asks whether to remove it still.
    ConfirmRemove(usize),
    /// Nothing more is asked.
    Finished(Outcome),
}

/// Whether a stage suits a list of `len` tasks: each task position that it
/// names lies in the list, and a question on the only task has a task to ask of.
pub open spec fn fits(f: Flow, len: nat) -> bool {
    match f {
        Flow::ConfirmOnly(_) => len >= 1,
        Flow::ConfirmEdit(i) => i < len,
        Flow::EnterText(i) => i < len,
        Flow::ConfirmReopen(i) => i < len,
        Flow::ConfirmRemove(i) => i < len,
        _ => true,
    }
}

/// How an operation begins on a list: with no task it ends at once; with one
/// it asks whether to act on that one; else it asks for a number.
pub open spec fn begin_spec(verb: Verb, tasks: Seq<TaskView>) -> Flow {
    if tasks.len() == 0 {
        Flow::Finished(Outcome::NoTasks)
    } else if tasks.len() == 1 {
        Flow::ConfirmOnly(verb)
    } else {
        Flow::Select(verb)
    }
}

/// What happens once the task at `i` is chosen. Edit asks first when the task
/// is done; complete acts at once, or not at all on a done task; remove asks
/// first when the task is unfinished.
pub open spec fn on_target(verb: Verb, tasks: Seq<TaskView>, i: int) -> (Flow, Seq<TaskView>) {
    match verb {
        Verb::Edit => if tasks[i].1 {
            (Flow::ConfirmEdit(i as usize), tasks)
        } else {
            (Flow::EnterText(i as usize), tasks)
        },
        Verb::Complete => if tasks[i].1 {
            (Flow::Finished(Outcome::AlreadyCompleted), tasks)
        } else {
            (Flow::Finished(Outcome::Completed), completed_at(tasks, i))
        },
        Verb::Remove => if tasks[i].1 {
            (Flow::Finished(Outcome::Removed), removed_at(tasks, i))
        } else {
            (Flow::ConfirmRemove(i as usize), tasks)
        },
    }
}

/// The effect of a yes/no answer. A stage that asks no such question stays.
pub open spec fn on_answer(f: Flow, tasks: Seq<TaskView>, yes: bool) -> (Flow, Seq<TaskView>) {
    match f {
        Flow::ConfirmOnly(verb) => if yes {
            on_target(verb, tasks, 0)
        } else {
            (Flow::Finished(Outcome::Aborted), tasks)
        },
        Flow::ConfirmEdit(i) => if yes {
            (Flow::EnterText(i), tasks)
        } else {
            (Flow::Finished(Outcome::Aborted), tasks)
        },
        Flow::ConfirmReopen(i) => if yes {
            (Flow::Finished(Outcome::Edited), tasks.update(i as int, (tasks[i as int].0, false)))
        } else {
            (Flow::Finished(Outcome::Edited), tasks)
        },
        Flow::ConfirmRemove(i) => if yes {
            (Flow::Finished(Outcome::Removed), removed_at(tasks, i as int))
        } else {
            (Flow::Finished(Outcome::Aborted), tasks)
        },
        _ => (f, tasks),
    }
}

/// The effect of a typed task number `n`: 0 backs out, 1 to the number of
/// tasks chooses the task at `n - 1`, and any other number leaves the question
/// open. A stage that asks for no number stays.
pub open spec fn on_number(f: Flow, tasks: Seq<TaskView>, n: nat) -> (Flow, Seq<TaskView>) {
    match f {
        Flow::Select(verb) => if n == 0 {
            (Flow::Finished(Outcome::Aborted), tasks)
        } else if n <= tasks.len() {
            on_target(verb, tasks, n - 1)
        } else {
            (f, tasks)
        },
        _ => (f, tasks),
    }
}

/// The effect of a new description: it replaces the old one, and a task that
/// was done then asks whether to mark it unfinished. A stage that asks for no
/// description stays.
pub open spec fn on_text(f: Flow, tasks: Seq<TaskView>, text: Seq<char>) -> (Flow, Seq<TaskView>) {
    match f {
        Flow::EnterText(i) => {
            let edited = tasks.update(i as int, (text, tasks[i as int].1));
            if tasks[i as int].1 {
                (Flow::ConfirmReopen(i), edited)
            } else {
                (Flow::Finished(Outcome::Edited), edited)
            }
        },
        _ => (f, tasks),
    }
}

impl Todo {
    /// The first stage of an operation on one task (see `begin_spec`).
    pub fn begin(&self, verb: Verb) -> (r: Flow)
        ensures
            r == begin_spec(verb, self@),
            fits(r, self@.len()),
    {
        let len = self.len();
        if len == 0 {
            Flow::Finished(Outcome::NoTasks)
        } else if len == 1 {
            Flow::ConfirmOnly(verb)
        } else {
            Flow::Select(verb)
        }
    }

    /// Acts on the chosen task at `index` (see `on_target`).
    fn target(&mut self, verb: Verb, index: usize) -> (r: Flow)
        requires
            index < old(self)@.len(),
        ensures
            (r, final(self)@) == on_target(verb, old(self)@, index as int),
            fits(r, final(self)@.len()),
    {
        match verb {
            Verb::Edit => if self.is_completed(index) {
                Flow::ConfirmEdit(index)
            } else {
                Flow::EnterText(index)
            },
            Verb::Complete => if self.complete_task(index) {
                Flow::Finished(Outcome::Completed)
            } else {
                assert(final(self)@ =~= old(self)@);
                Flow::Finished(Outcome::AlreadyCompleted)
            },
            Verb::Remove => if self.is_completed(index) {
                self.remove_task(index);
                Flow::Finished(Outcome::Removed)
            } else {
                Flow::ConfirmRemove(index)
            },
        }
    }

    /// Hands a yes/no answer to the stage `f` (see `on_answer`).
    pub fn answer(&mut self, f: Flow, yes: bool) -> (r: Flow)
        requires
            fits(f, old(self)@.len()),
        ensures
            (r, final(self)@) == on_answer(f, old(self)@, yes),
            fits(r, final(self)@.len()),
    {
        match f {
            Flow::ConfirmOnly(verb) => if yes {
                self.target(verb, 0)
            } else {
                Flow::Finished(Outcome::Aborted)
            },
            Flow::ConfirmEdit(i) => if yes {
                Flow::EnterText(i)
            } else {
                Flow::Finished(Outcome::Aborted)
            },
            Flow::ConfirmReopen(i) => {
                if yes {
                    self.reopen_task(i);
                }
                Flow::Finished(Outcome::Edited)
            },
            Flow::ConfirmRemove(i) => if yes {
                self.remove_task(i);
                Flow::Finished(Outcome::Removed)
            } else {
                Flow::Finished(Outcome::Aborted)
            },
            _ => f,
        }
    }

    /// Hands a typed task number to the stage `f` (see `on_number`).
    pub fn pick(&mut self, f: Flow, n: usize) -> (r: Flow)
        requires
            fits(f, old(self)@.len()),
        ensures
            (r, final(self)@) == on_number(f, old(self)@, n as nat),
            fits(r, final(self)@.len()),
    {
        match f {
            Flow::Select(verb) => if n == 0 {
                Flow::Finished(Outcome::Aborted)
            } else if n <= self.len() {
                self.target(verb, n - 1)
            } else {
                f
            },
            _ => f,
        }
    }

    /// Hands a new description to the stage `f` (see `on_text`).
    pub fn enter_text(&mut self, f: Flow, text: String) -> (r: Flow)
        requires
            fits(f, old(self)@.len()),
            text@.len() <= MAX_TASK_LEN,
        ensures
            (r, final(self)@) == on_text(f, old(self)@, text@),
            fits(r, final(self)@.len()),
    {
        match f {
            Flow::EnterText(i) => {
                let was_done = self.is_completed(i);
                self.edit_task(i, text);
                if was_done {
                    Flow::ConfirmReopen(i)
                } else {
                    Flow::Finished(Outcome::Edited)
                }
            },
            _ => f,
        }
    }
}

} // verus!
