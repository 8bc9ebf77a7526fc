use vstd::prelude::*;

verus! {

/// The longest description, in characters, that a task may be given.
pub const MAX_TASK_LEN: usize = 100;

/// What a task is: its description and whether it is done.
pub type TaskView = (Seq<char>, bool);

/// One entry of the list.
#[derive(Clone, Debug, PartialEq, Eq)]
pub struct Task {
    pub description: String,
    pub completed: bool,
}

impl View for Task {
    type V = TaskView;

    open spec fn view(&self) -> TaskView {
        (self.description@, self.completed)
    }
}

/// The views of a sequence of tasks, position by position.
pub open spec fn tasks_view(s: Seq<Task>) -> Seq<TaskView> {
    s.map_values(|t: Task| t@)
}

/// The list after appending a new, unfinished task.
pub open spec fn added(tasks: Seq<TaskView>, description: Seq<char>) -> Seq<TaskView> {
    tasks.push((description, false))
}

/// The list after marking the task at `i` as done.
pub open spec fn completed_at(tasks: Seq<TaskView>, i: int) -> Seq<TaskView> {
    tasks.update(i, (tasks[i].0, true))
}

/// The list after deleting the task at `i`; later tasks move down by one.
pub open spec fn removed_at(tasks: Seq<TaskView>, i: int) -> Seq<TaskView> {
    tasks.remove(i)
}

/// The list after a run of additions, one per description, in order.
pub open spec fn after_adds(tasks: Seq<TaskView>, descriptions: Seq<Seq<char>>) -> Seq<TaskView>
    decreases descriptions.len(),
{
    if descriptions.len() == 0 {
        tasks
    } else {
        added(after_adds(tasks, descriptions.drop_last()), descriptions.last())
    }
}

impl Task {
    /// A task with the same description and flag.
    pub fn duplicate(&self) -> (r: Task)
        ensures
            r@ == self@,
    {
        Task { description: self.description.clone(), completed: self.completed }
    }
}

/// The task list, in display order.
#[derive(Debug)]
pub struct Todo {
    tasks: Vec<Task>,
}

impl View for Todo {
    type V = Seq<TaskView>;

    closed spec fn view(&self) -> Seq<TaskView> {
        tasks_view(self.tasks@)
    }
}

impl Todo {
    /// An empty list.
    pub fn empty() -> (r: Todo)
        ensures
            r@ == Seq::<TaskView>::empty(),
    {
        let r = Todo { tasks: Vec::new() };
        assert(r@ =~= Seq::<TaskView>::empty());
        r
    }

    /// A list holding the given tasks, in the given order.
    pub fn from_tasks(tasks: Vec<Task>) -> (r: Todo)
        ensures
            r@ == tasks_view(tasks@),
    {
        Todo { tasks }
    }

    /// The number of tasks.
    pub fn len(&self) -> (r: usize)
        ensures
            r == self@.len(),
    {
        self.tasks.len()
    }

    /// Whether the list holds no task.
    pub fn is_empty(&self) -> (r: bool)
        ensures
            r == (self@.len() == 0),
    {
        self.tasks.len() == 0
    }

    /// Whether the task at `index` is done.
    pub fn is_completed(&self, index: usize) -> (r: bool)
        requires
            index < self@.len(),
        ensures
            r == self@[index as int].1,
    {
        self.tasks[index].completed
    }

    /// The tasks, in order, for display; the list is left as it is.
    pub fn list_tasks(&self) -> (r: Vec<Task>)
        ensures
            tasks_view(r@) == self@,
    {
        let mut r: Vec<Task> = Vec::new();
        let mut i: usize = 0;
        while i < self.tasks.len()
            invariant
                i <= self.tasks@.len(),
                r@.len() == i,
                forall|k: int| 0 <= k < i ==> (#[trigger] r@[k])@ == self.tasks@[k]@,
            decreases self.tasks@.len() - i,
        {
            r.push(self.tasks[i].duplicate());
            i = i + 1;
        }
        assert(tasks_view(r@) =~= self@);
        r
    }

    /// Appends a new, unfinished task with the given description.
    pub fn add_task(&mut self, description: String)
        requires
            description@.len() <= MAX_TASK_LEN,
        ensures
            final(self)@ == added(old(self)@, description@),
    {
        self.tasks.push(Task { description, completed: false });
        assert(final(self)@ =~= added(old(self)@, description@));
    }

    /// Replaces the description of the task at `index`; its flag is kept.
    pub fn edit_task(&mut self, index: usize, description: String)
        requires
            index < old(self)@.len(),
            description@.len() <= MAX_TASK_LEN,
        ensures
            final(self)@ == old(self)@.update(index as int, (description@, old(self)@[index as int].1)),
    {
        self.tasks[index].description = description;
        assert(final(self)@ =~= old(self)@.update(index as int, (description@, old(self)@[index as int].1)));
    }

    /// Marks the task at `index` as not done.
    pub fn reopen_task(&mut self, index: usize)
        requires
            index < old(self)@.len(),
        ensures
            final(self)@ == old(self)@.update(index as int, (old(self)@[index as int].0, false)),
    {
        self.tasks[index].completed = false;
        assert(final(self)@ =~= old(self)@.update(index as int, (old(self)@[index as int].0, false)));
    }

    /// Marks the task at `index` as done; nothing changes if it already was.
    /// Returns whether the task changed.
    pub fn complete_task(&mut self, index: usize) -> (r: bool)
        requires
            index < old(self)@.len(),
        ensures
            final(self)@ == completed_at(old(self)@, index as int),
            r == !old(self)@[index as int].1,
    {
        if self.tasks[index].completed {
            assert(final(self)@ =~= completed_at(old(self)@, index as int));
            false
        } else {
            self.tasks[index].completed = true;
            assert(final(self)@ =~= completed_at(old(self)@, index as int));
            true
        }
    }

    /// Deletes the task at `index`; the tasks after it move down by one.
    pub fn remove_task(&mut self, index: usize)
        requires
            index < old(self)@.len(),
        ensures
            final(self)@ == removed_at(old(self)@, index as int),
            final(self)@.len() == old(self)@.len() - 1,
    {
        self.tasks.remove(index);
        assert(final(self)@ =~= removed_at(old(self)@, index as int));
    }
}

/// Adding one task per description to a list lengthens it by the number of
/// descriptions, keeps the earlier tasks, and leaves every new task unfinished
/// with its own description, in order.
pub proof fn lemma_adds(tasks: Seq<TaskView>, descriptions: Seq<Seq<char>>)
    ensures
        after_adds(tasks, descriptions).len() == tasks.len() + descriptions.len(),
        forall|i: int| 0 <= i < tasks.len() ==> #[trigger] after_adds(tasks, descriptions)[i] == tasks[i],
        forall|j: int| 0 <= j < descriptions.len()
            ==> #[trigger] after_adds(tasks, descriptions)[tasks.len() + j] == (descriptions[j], false),
    decreases descriptions.len(),
{
    if descriptions.len() > 0 {
        let init = descriptions.drop_last();
        lemma_adds(tasks, init);
        assert forall|j: int| 0 <= j < descriptions.len()
            implies #[trigger] after_adds(tasks, descriptions)[tasks.len() + j] == (descriptions[j], false) by {
            if j < init.len() {
                assert(after_adds(tasks, init)[tasks.len() + j] == (init[j], false));
            }
        }
    }
}

/// Starting from an empty list, a run of additions leaves exactly one task per
/// call, none of them done.
pub proof fn lemma_adds_from_empty(descriptions: Seq<Seq<char>>)
    ensures
        after_adds(Seq::empty(), descriptions).len() == descriptions.len(),
        forall|j: int| 0 <= j < descriptions.len() ==> !(#[trigger] after_adds(Seq::empty(), descriptions)[j]).1,
{
    lemma_adds(Seq::empty(), descriptions);
    assert forall|j: int| 0 <= j < descriptions.len() implies !(#[trigger] after_adds(Seq::empty(), descriptions)[j]).1 by {
        assert(after_adds(Seq::<TaskView>::empty(), descriptions)[0 + j] == (descriptions[j], false));
    }
}

/// Removing the task at `i` keeps the tasks before it, moves each later task
/// down by one position, and shortens the list by one.
pub proof fn lemma_remove_shifts(tasks: Seq<TaskView>, i: int)
    requires
        0 <= i < tasks.len(),
    ensures
        removed_at(tasks, i).len() == tasks.len() - 1,
        forall|k: int| 0 <= k < i ==> #[trigger] removed_at(tasks, i)[k] == tasks[k],
        forall|k: int| i <= k < tasks.len() - 1 ==> #[trigger] removed_at(tasks, i)[k] == tasks[k + 1],
{
}

/// Completing the same task twice leaves the list as completing it once.
pub proof fn lemma_complete_idempotent(tasks: Seq<TaskView>, i: int)
    requires
        0 <= i < tasks.len(),
    ensures
        completed_at(completed_at(tasks, i), i) == completed_at(tasks, i),
{
    assert(completed_at(completed_at(tasks, i), i) =~= completed_at(tasks, i));
}

} // verus!
