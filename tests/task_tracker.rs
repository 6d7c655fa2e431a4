use task_tracker::cli::{parse_due_date, parse_priority, priority_filter, priority_from_lowered, resolve_due_date};
use task_tracker::storage::{StoreError, TaskStorage};
use task_tracker::task::{decimal_text, Priority, Task, Timestamp};

fn stamp(year: i32, month: u32, day: u32, hour: u32, minute: u32) -> Timestamp {
    Timestamp {
        year,
        month,
        day,
        hour,
        minute,
        second: 0,
        nanosecond: 0,
        offset_seconds: 3600,
    }
}

fn task(id: usize, title: &str) -> Task {
    Task::new(id, title.to_string(), String::new(), None, Priority::Medium)
}

fn ids(s: &TaskStorage) -> Vec<usize> {
    s.get_tasks().iter().map(|t| t.id).collect()
}

#[test]
fn buy_milk_end_to_end() {
    let mut s = TaskStorage::new("tasks.json", None);
    let id = s.get_next_id();
    assert_eq!(id, 1);
    s.add_task(Task::new(id, "Buy milk".to_string(), "2%".to_string(), None, Priority::Medium));
    let t = s.get_task_by_id(1).unwrap();
    assert_eq!(t.id, 1);
    assert!(!t.completed);
    assert_eq!(s.get_tasks().len(), 1);
    assert_eq!(s.complete_task(1), Ok(()));
    assert!(s.get_task_by_id(1).unwrap().completed);
    assert_eq!(s.delete_task(1), Ok(()));
    assert!(s.get_tasks().is_empty());
    assert_eq!(s.delete_task(1), Err(StoreError::NotFound));
}

#[test]
fn ids_are_not_reused_after_delete() {
    let mut s = TaskStorage::new("tasks.json", None);
    let a = s.get_next_id();
    s.add_task(task(a, "a"));
    let b = s.get_next_id();
    s.add_task(task(b, "b"));
    assert_eq!((a, b), (1, 2));
    assert_eq!(s.delete_task(1), Ok(()));
    assert_eq!(s.get_next_id(), 3);
}

#[test]
fn next_id_counts_sequential_adds() {
    let mut s = TaskStorage::new("tasks.json", None);
    for n in 1..=5usize {
        let id = s.get_next_id();
        assert_eq!(id, n);
        s.add_task(task(id, "t"));
    }
    assert_eq!(s.get_next_id(), 6);
}

#[test]
fn next_id_follows_largest_loaded_id() {
    let s = TaskStorage::new("tasks.json", Some(vec![task(7, "a"), task(3, "b")]));
    assert_eq!(s.get_next_id(), 8);
    assert_eq!(s.file_path(), "tasks.json");
    assert_eq!(ids(&s), vec![7, 3]);
}

#[test]
fn mark_complete_twice_is_same_as_once() {
    let mut once = task(1, "a");
    once.mark_as_complete();
    let mut twice = once.clone();
    twice.mark_as_complete();
    assert!(once.completed && twice.completed);
    assert_eq!(once.display(), twice.display());
}

#[test]
fn with_changes_keeps_fields_not_given() {
    let mut t = Task::new(4, "old".to_string(), "desc".to_string(), Some(stamp(2024, 1, 2, 3, 4)), Priority::Low);
    t.mark_as_complete();
    let u = t.with_changes(Some("new".to_string()), None, None, Some(Priority::High));
    assert_eq!(u.id, 4);
    assert_eq!(u.title, "new");
    assert_eq!(u.description, "desc");
    assert_eq!(u.due_date, Some(stamp(2024, 1, 2, 3, 4)));
    assert_eq!(u.priority, Priority::High);
    assert_eq!(u.created_at, t.created_at);
    assert!(u.completed);
    let v = t.with_changes(None, Some("d2".to_string()), Some(stamp(2025, 6, 7, 8, 9)), None);
    assert_eq!(v.title, "old");
    assert_eq!(v.description, "d2");
    assert_eq!(v.due_date, Some(stamp(2025, 6, 7, 8, 9)));
    assert_eq!(v.priority, Priority::Low);
}

#[test]
fn update_replaces_in_place() {
    let mut s = TaskStorage::new("tasks.json", Some(vec![task(1, "a"), task(2, "b"), task(3, "c")]));
    let changed = s.get_task_by_id(2).unwrap().with_changes(Some("B".to_string()), None, None, None);
    assert_eq!(s.update_task(changed), Ok(()));
    assert_eq!(ids(&s), vec![1, 2, 3]);
    assert_eq!(s.get_tasks()[1].title, "B");
    assert_eq!(s.update_task(task(9, "z")), Err(StoreError::NotFound));
    assert_eq!(ids(&s), vec![1, 2, 3]);
}

#[test]
fn delete_missing_id_changes_nothing() {
    let mut s = TaskStorage::new("tasks.json", Some(vec![task(1, "a"), task(2, "b")]));
    assert_eq!(s.delete_task(5), Err(StoreError::NotFound));
    assert_eq!(ids(&s), vec![1, 2]);
    assert_eq!(s.complete_task(5), Err(StoreError::NotFound));
    assert!(s.get_tasks().iter().all(|t| !t.completed));
}

#[test]
fn lookup_and_delete_take_first_match() {
    let mut s = TaskStorage::new("tasks.json", Some(vec![task(1, "first"), task(1, "second")]));
    assert_eq!(s.get_task_by_id(1).unwrap().title, "first");
    assert!(s.get_task_by_id(2).is_none());
    assert_eq!(s.delete_task(1), Ok(()));
    assert_eq!(s.get_tasks()[0].title, "second");
}

#[test]
fn empty_store_offers_id_one() {
    let s = TaskStorage::new("tasks.json", None);
    assert_eq!(s.get_next_id(), 1);
    assert!(s.get_tasks().is_empty());
}

#[test]
fn new_task_defaults() {
    let t = Task::new(3, String::new(), String::new(), None, Priority::High);
    assert!(!t.completed);
    assert_eq!(t.title, "");
    assert!((1..=12).contains(&t.created_at.month));
    assert!(t.created_at.hour < 24);
}

#[test]
fn display_without_due_date() {
    let t = Task::new(12, "Buy milk".to_string(), "2%".to_string(), None, Priority::Medium);
    assert_eq!(
        t.display(),
        "ID: 12\nTitle: Buy milk\nDescription: 2%\nPriority: Medium\nDue: No due date\nStatus: \u{274c}\n"
    );
}

#[test]
fn display_with_due_date_and_done() {
    let mut t = Task::new(7, "Report".to_string(), "".to_string(), Some(stamp(2024, 3, 5, 9, 7)), Priority::High);
    t.mark_as_complete();
    assert_eq!(
        t.display(),
        "ID: 7\nTitle: Report\nDescription: \nPriority: High\nDue: 2024-03-05 09:07\nStatus: \u{2705}\n"
    );
}

#[test]
fn decimal_text_values() {
    assert_eq!(decimal_text(0), "0");
    assert_eq!(decimal_text(42), "42");
    assert_eq!(decimal_text(1000), "1000");
    assert_eq!(decimal_text(usize::MAX), usize::MAX.to_string());
}

#[test]
fn priority_labels() {
    assert_eq!(Priority::Low.label(), "Low");
    assert_eq!(Priority::Medium.label(), "Medium");
    assert_eq!(Priority::High.label(), "High");
}

#[test]
fn parse_priority_any_case() {
    assert_eq!(parse_priority("low"), Ok(Priority::Low));
    assert_eq!(parse_priority("MEDIUM"), Ok(Priority::Medium));
    assert_eq!(parse_priority("HiGh"), Ok(Priority::High));
}

#[test]
fn parse_priority_rejects_other_words() {
    assert_eq!(
        parse_priority("urgent"),
        Err("Invalid priority: urgent. Use low, medium, or high".to_string())
    );
    assert!(parse_priority("").is_err());
    assert_eq!(priority_from_lowered("high", "HIGH"), Ok(Priority::High));
    assert_eq!(
        priority_from_lowered("Low", "Low"),
        Err("Invalid priority: Low. Use low, medium, or high".to_string())
    );
}

#[test]
fn filter_by_state_and_priority() {
    let mut done = task(1, "a");
    done.mark_as_complete();
    let open = Task::new(2, "b".to_string(), String::new(), None, Priority::High);
    assert!(done.passes(None, None));
    assert!(done.passes(Some(true), Some(Priority::Medium)));
    assert!(!done.passes(Some(false), None));
    assert!(!open.passes(None, Some(Priority::Low)));
    assert!(open.passes(Some(false), Some(Priority::High)));
}

#[test]
fn parse_due_date_reads_wall_clock() {
    match parse_due_date("2024-03-05 09:07") {
        Ok(t) => {
            assert_eq!((t.year, t.month, t.day, t.hour, t.minute), (2024, 3, 5, 9, 7));
            assert_eq!((t.second, t.nanosecond), (0, 0));
        }
        Err(m) => assert_eq!(m, "Unable to convert to local timezone"),
    }
}

#[test]
fn parse_due_date_rejects_bad_text() {
    let m = parse_due_date("tomorrow").unwrap_err();
    assert!(m.starts_with("Invalid date format: "));
    assert!(m.ends_with(". Use YYYY-MM-DD HH:MM"));
    assert!(parse_due_date("2024-02-30 10:00").is_err());
}

#[test]
fn resolve_due_date_cases() {
    assert_eq!(resolve_due_date((2024, 3, 5, 9, 7), Some(3600)), Ok(stamp(2024, 3, 5, 9, 7)));
    assert_eq!(
        resolve_due_date((2024, 3, 31, 2, 30), None),
        Err("Unable to convert to local timezone".to_string())
    );
}

#[test]
fn add_new_takes_next_id() {
    let mut s = TaskStorage::new("tasks.json", Some(vec![task(4, "a")]));
    let id = s.add_new("Buy milk".to_string(), "2%".to_string(), None, Priority::Medium);
    assert_eq!(id, 5);
    let t = &s.get_tasks()[1];
    assert_eq!((t.id, t.title.as_str(), t.description.as_str()), (5, "Buy milk", "2%"));
    assert_eq!(t.priority, Priority::Medium);
    assert!(t.due_date.is_none() && !t.completed);
}

#[test]
fn update_fields_keeps_other_fields() {
    let mut s = TaskStorage::new("tasks.json", Some(vec![task(1, "a"), task(2, "b")]));
    assert_eq!(s.complete_task(2), Ok(()));
    let before = s.get_tasks()[1].clone();
    assert_eq!(s.update_fields(2, None, Some("new".to_string()), None, Some(Priority::Low)), Ok(()));
    let after = &s.get_tasks()[1];
    assert_eq!(after.id, 2);
    assert_eq!(after.title, before.title);
    assert_eq!(after.description, "new");
    assert_eq!(after.due_date, before.due_date);
    assert_eq!(after.created_at, before.created_at);
    assert_eq!(after.priority, Priority::Low);
    assert!(after.completed);
    assert_eq!(s.update_fields(3, Some("x".to_string()), None, None, None), Err(StoreError::NotFound));
    assert_eq!(ids(&s), vec![1, 2]);
}

#[test]
fn priority_filter_ignores_unknown_words() {
    assert_eq!(priority_filter(&Some("LOW".to_string())), Some(Priority::Low));
    assert_eq!(priority_filter(&Some("urgent".to_string())), None);
    assert_eq!(priority_filter(&None), None);
}
