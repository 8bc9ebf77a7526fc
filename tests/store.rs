use tasklist::model::{Task, Todo};
use tasklist::store::{records_from_tasks, tasks_from_records, LoadError};

fn todo_of(items: &[(&str, bool)]) -> Todo {
    Todo::from_tasks(
        items.iter().map(|(d, c)| Task { description: d.to_string(), completed: *c }).collect(),
    )
}

fn pairs(t: &Todo) -> Vec<(String, bool)> {
    t.list_tasks().into_iter().map(|t| (t.description, t.completed)).collect()
}

fn load(text: &str) -> Result<Todo, LoadError> {
    Todo::load_tasks(Ok(text.as_bytes().to_vec()))
}

#[test]
fn save_then_load_gives_the_same_list() {
    let items = [
        ("Buy milk", false),
        ("pay, then leave", true),
        ("say \"hi\"", false),
        ("two\nlines", true),
        ("", false),
        ("true", false),
        ("ünïcödé ✓", true),
    ];
    let t = todo_of(&items);
    let text = t.save_tasks();
    let back = Todo::load_tasks(Ok(text)).unwrap();
    assert_eq!(pairs(&back), pairs(&t));
}

#[test]
fn save_writes_two_columns() {
    let t = todo_of(&[("A", true), ("B", false)]);
    let text = t.save_tasks();
    assert_eq!(String::from_utf8(text).unwrap(), "A,true\nB,false\n");
}

#[test]
fn save_quotes_fields_with_commas() {
    let t = todo_of(&[("a,b", false)]);
    let text = t.save_tasks();
    assert_eq!(String::from_utf8(text).unwrap(), "\"a,b\",false\n");
}

#[test]
fn save_of_empty_list_is_empty() {
    let t = Todo::empty();
    assert!(t.save_tasks().is_empty());
}

#[test]
fn load_reads_flags_and_skips_short_rows() {
    let t = load("A,true\nB,false\nC,yes\n").unwrap();
    assert_eq!(
        pairs(&t),
        vec![("A".to_string(), true), ("B".to_string(), false), ("C".to_string(), false)]
    );
    let t = load("only\nalone\n").unwrap();
    assert!(t.is_empty());
    let t = load("A,true,extra\n").unwrap();
    assert_eq!(pairs(&t), vec![("A".to_string(), true)]);
}

#[test]
fn missing_store_gives_empty_list() {
    let t = Todo::load_tasks(Err(LoadError::NotFound)).unwrap();
    assert!(t.is_empty());
}

#[test]
fn unreadable_store_is_an_error_that_start_forgives() {
    assert_eq!(Todo::load_tasks(Err(LoadError::Unreadable)).unwrap_err(), LoadError::Unreadable);
    assert!(Todo::new(Err(LoadError::Unreadable)).is_empty());
}

#[test]
fn malformed_store_is_an_error_that_start_forgives() {
    let bad_utf8 = vec![0xff, 0xfe, b',', b't'];
    assert_eq!(Todo::load_tasks(Ok(bad_utf8)).unwrap_err(), LoadError::Malformed);
}

#[test]
fn short_rows_are_skipped_among_full_ones() {
    let uneven = "A,true\nB\n";
    assert_eq!(pairs(&load(uneven).unwrap()), vec![("A".to_string(), true)]);
    assert_eq!(pairs(&Todo::new(Ok(uneven.as_bytes().to_vec()))), vec![("A".to_string(), true)]);
    let mixed = "solo\nX,false\nY,true,more\n\nZ,true\n";
    assert_eq!(
        pairs(&load(mixed).unwrap()),
        vec![("X".to_string(), false), ("Y".to_string(), true), ("Z".to_string(), true)]
    );
}

#[test]
fn start_uses_the_stored_list() {
    let t = Todo::new(Ok(b"X,true\n".to_vec()));
    assert_eq!(pairs(&t), vec![("X".to_string(), true)]);
}

#[test]
fn records_round_trip() {
    let tasks = vec![
        Task { description: "a".to_string(), completed: true },
        Task { description: "b".to_string(), completed: false },
    ];
    let records = records_from_tasks(&tasks);
    assert_eq!(
        records,
        vec![vec!["a".to_string(), "true".to_string()], vec!["b".to_string(), "false".to_string()]]
    );
    assert_eq!(tasks_from_records(&records), tasks);
}
