use vstd::prelude::*;
use crate::model::{Task, TaskView, Todo, tasks_view};

verus! {

#[verifier::external_type_specification]
#[verifier::external_body]
pub struct ExCsvError(csv::Error);

/// What the csv crate reads from a text with no header row: its records,
/// each a sequence of fields, or nothing where it refuses the text.
pub uninterp spec fn csv_records_of(text: Seq<u8>) -> Option<Seq<Seq<Seq<char>>>>;

/// The text that the csv crate writes for the given records, with no header row.
pub uninterp spec fn csv_text_of(records: Seq<Seq<Seq<char>>>) -> Seq<u8>;

/// The fields of each record, as character sequences.
pub open spec fn records_view(records: Seq<Vec<String>>) -> Seq<Seq<Seq<char>>> {
    records.map_values(|r: Vec<String>| r@.map_values(|f: String| f@))
}

/// Relies on csv::ReaderBuilder (no header row; flexible, so that records
/// may differ in their number of fields) and csv::Reader::records: the
/// records of `text` in order, or the error of the first that fails.
#[verifier::external_body]
fn read_records(text: &[u8]) -> (r: Result<Vec<Vec<String>>, csv::Error>)
    ensures
        r is Ok <==> csv_records_of(text@) is Some,
        r matches Ok(v) ==> csv_records_of(text@) == Some(records_view(v@)),
{
    let mut rdr = csv::ReaderBuilder::new().has_headers(false).flexible(true).from_reader(text);
    rdr.records()
        .map(|rec| rec.map(|rec| rec.iter().map(String::from).collect()))
        .collect()
}

/// Relies on csv::WriterBuilder (no header row), csv::Writer::write_record and
/// csv::Writer::into_inner: the text of the records, written into memory.
/// Writing into a `Vec` fails only where the records differ in their number
/// of fields.
#[verifier::external_body]
fn write_records(records: &Vec<Vec<String>>) -> (r: Result<Vec<u8>, csv::Error>)
    ensures
        r matches Ok(text) ==> text@ == csv_text_of(records_view(records@)),
        (forall|i: int, j: int|
            0 <= i < records@.len() && 0 <= j < records@.len()
                ==> #[trigger] records@[i]@.len() == #[trigger] records@[j]@.len()) ==> r is Ok,
{
    let mut wtr = csv::WriterBuilder::new().has_headers(false).from_writer(Vec::new());
    for record in records.iter() {
        wtr.write_record(record)?;
    }
    wtr.into_inner().map_err(|e| csv::Error::from(e.into_error()))
}

/// Why a store gave no list.
#[derive(Clone, Copy, Debug, PartialEq, Eq, Structural)]
pub enum LoadError {
    /// There is no store.
    NotFound,
    /// The store exists but could not be read.
    Unreadable,
    /// The store was read but does not hold records.
    Malformed,
}

/// The text of the flag column for a done task.
pub open spec fn true_text() -> Seq<char> {
    seq!['t', 'r', 'u', 'e']
}

/// The text of the flag column for an unfinished task.
pub open spec fn false_text() -> Seq<char> {
    seq!['f', 'a', 'l', 's', 'e']
}

/// The record that stores a task: its description, then its flag as text.
pub open spec fn record_of(t: TaskView) -> Seq<Seq<char>> {
    seq![t.0, if t.1 { true_text() } else { false_text() }]
}

/// The records that store a list, one per task, in order.
pub open spec fn records_of(tasks: Seq<TaskView>) -> Seq<Seq<Seq<char>>> {
    tasks.map_values(|t: TaskView| record_of(t))
}

/// The task that a record stands for: records of fewer than two fields stand
/// for none; a task is done exactly when the second field reads `true`.
pub open spec fn task_of_record(r: Seq<Seq<char>>) -> Option<TaskView> {
    if r.len() >= 2 {
        Some((r[0], r[1] == true_text()))
    } else {
        None
    }
}

/// The tasks that a run of records stands for, in order.
pub open spec fn tasks_of_records(records: Seq<Seq<Seq<char>>>) -> Seq<TaskView>
    decreases records.len(),
{
    if records.len() == 0 {
        Seq::empty()
    } else {
        let init = tasks_of_records(records.drop_last());
        match task_of_record(records.last()) {
            Some(t) => init.push(t),
            None => init,
        }
    }
}

/// The list that a store's contents give: a missing store gives an empty list;
/// a store that could not be read, or whose text the csv crate refuses, gives
/// an error.
pub open spec fn loaded(stored: Result<Seq<u8>, LoadError>) -> Result<Seq<TaskView>, LoadError> {
    match stored {
        Err(LoadError::NotFound) => Ok(Seq::empty()),
        Err(e) => Err(e),
        Ok(text) => match csv_records_of(text) {
            Some(records) => Ok(tasks_of_records(records)),
            None => Err(LoadError::Malformed),
        },
    }
}

/// The view of a store's contents as handed over by the caller.
pub open spec fn stored_view(stored: Result<Vec<u8>, LoadError>) -> Result<Seq<u8>, LoadError> {
    match stored {
        Ok(text) => Ok(text@),
        Err(e) => Err(e),
    }
}

/// The tasks that the records read from a store stand for.
pub fn tasks_from_records(records: &Vec<Vec<String>>) -> (r: Vec<Task>)
    ensures
        tasks_view(r@) == tasks_of_records(records_view(records@)),
{
    let mut r: Vec<Task> = Vec::new();
    let mut i: usize = 0;
    while i < records.len()
        invariant
            i <= records@.len(),
            tasks_view(r@) == tasks_of_records(records_view(records@.subrange(0, i as int))),
        decreases records@.len() - i,
    {
        let record = &records[i];
        proof {
            let prefix = records@.subrange(0, i as int);
            let next = records@.subrange(0, i + 1);
            assert(records_view(next).drop_last() =~= records_view(prefix));
            assert(records_view(next).last() == record@.map_values(|f: String| f@));
        }
        if record.len() >= 2 {
            let done = record[1].as_str().unicode_len() == 4 && record[1].as_str().get_char(0) == 't'
                && record[1].as_str().get_char(1) == 'r' && record[1].as_str().get_char(2) == 'u'
                && record[1].as_str().get_char(3) == 'e';
            assert(done == (record@[1]@ == true_text())) by {
                if record@[1]@.len() == 4 && record@[1]@[0] == 't' && record@[1]@[1] == 'r'
                    && record@[1]@[2] == 'u' && record@[1]@[3] == 'e' {
                    assert(record@[1]@ =~= true_text());
                }
            }
            let t = Task { description: record[0].clone(), completed: done };
            r.push(t);
        }
        i = i + 1;
        assert(tasks_view(r@) =~= tasks_of_records(records_view(records@.subrange(0, i as int))));
    }
    assert(records@.subrange(0, i as int) =~= records@);
    r
}

/// The records that store the given tasks, one per task, in order.
pub fn records_from_tasks(tasks: &Vec<Task>) -> (r: Vec<Vec<String>>)
    ensures
        records_view(r@) == records_of(tasks_view(tasks@)),
{
    let mut r: Vec<Vec<String>> = Vec::new();
    let mut i: usize = 0;
    while i < tasks.len()
        invariant
            i <= tasks@.len(),
            r@.len() == i,
            forall|k: int| 0 <= k < i ==> (#[trigger] r@[k])@.map_values(|f: String| f@) == record_of(tasks@[k]@),
        decreases tasks@.len() - i,
    {
        let flag = if tasks[i].completed {
            proof { reveal_strlit("true"); }
            let f = String::from_str("true");
            assert(f@ =~= true_text());
            f
        } else {
            proof { reveal_strlit("false"); }
            let f = String::from_str("false");
            assert(f@ =~= false_text());
            f
        };
        let mut record: Vec<String> = Vec::new();
        record.push(tasks[i].description.clone());
        record.push(flag);
        assert(record@.map_values(|f: String| f@) =~= record_of(tasks@[i as int]@));
        r.push(record);
        i = i + 1;
    }
    assert(records_view(r@) =~= records_of(tasks_view(tasks@)));
    r
}

impl Todo {
    /// The list that a store's contents give (see `loaded`). `stored` is the
    /// text of the store, or why there is none to read.
    pub fn load_tasks(stored: Result<Vec<u8>, LoadError>) -> (r: Result<Todo, LoadError>)
        ensures
            match (r, loaded(stored_view(stored))) {
                (Ok(t), Ok(tasks)) => t@ == tasks,
                (Err(e), Err(f)) => e == f,
                _ => false,
            },
    {
        match stored {
            Err(LoadError::NotFound) => Ok(Todo::empty()),
            Err(e) => Err(e),
            Ok(text) => match read_records(text.as_slice()) {
                Ok(records) => Ok(Todo::from_tasks(tasks_from_records(&records))),
                Err(_) => Err(LoadError::Malformed),
            },
        }
    }

    /// The list to start with: the one the store gives, or an empty list when
    /// the store gives none, whatever the reason.
    pub fn new(stored: Result<Vec<u8>, LoadError>) -> (r: Todo)
        ensures
            r@ == match loaded(stored_view(stored)) {
                Ok(tasks) => tasks,
                Err(_) => Seq::empty(),
            },
    {
        match Todo::load_tasks(stored) {
            Ok(t) => t,
            Err(_) => Todo::empty(),
        }
    }

    /// The text of the store that holds this list: one record per task, its
    /// description and then `true` or `false`, in order, with no header row.
    pub fn save_tasks(&self) -> (r: Vec<u8>)
        ensures
            r@ == csv_text_of(records_of(self@)),
    {
        let tasks = self.list_tasks();
        let records = records_from_tasks(&tasks);
        assert forall|i: int, j: int|
            0 <= i < records@.len() && 0 <= j < records@.len()
                implies #[trigger] records@[i]@.len() == #[trigger] records@[j]@.len() by {
            assert(records_view(records@)[i] == records@[i]@.map_values(|f: String| f@));
            assert(records_view(records@)[j] == records@[j]@.map_values(|f: String| f@));
            let ts = tasks_view(tasks@);
            assert(records_view(records@).len() == records@.len());
            assert(records_of(ts)[i] == record_of(ts[i]));
            assert(records_of(ts)[j] == record_of(ts[j]));
        }
        match write_records(&records) {
            Ok(text) => text,
            Err(_) => {
                proof {
                    assert(false);
                }
                Vec::new()
            },
        }
    }
}

/// Reading back the records that store a list gives the same list: the same
/// descriptions and flags, in the same order.
pub proof fn lemma_records_round_trip(tasks: Seq<TaskView>)
    ensures
        tasks_of_records(records_of(tasks)) == tasks,
    decreases tasks.len(),
{
    if tasks.len() > 0 {
        let init = tasks.drop_last();
        lemma_records_round_trip(init);
        assert(records_of(tasks).drop_last() =~= records_of(init));
        let t = tasks.last();
        if !t.1 {
            assert(false_text() != true_text()) by {
                assert(false_text().len() != true_text().len());
            }
        }
        assert(task_of_record(record_of(t)) == Some(t));
        assert(tasks_of_records(records_of(tasks)) =~= tasks);
    }
}

/// A missing store gives an empty list, not an error.
pub proof fn lemma_missing_store_is_empty()
    ensures
        loaded(Err(LoadError::NotFound)) == Ok::<Seq<TaskView>, LoadError>(Seq::empty()),
{
}

} // verus!
