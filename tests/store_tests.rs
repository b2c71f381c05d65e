use todo_list::store::{TodoError, TodoList};

fn sorted(mut v: Vec<String>) -> Vec<String> {
    v.sort();
    v
}

#[test]
fn new_store_is_empty() {
    let list = TodoList::new();
    assert!(list.items_at(0).is_empty());
}

#[test]
fn add_gives_one_line_per_name() {
    let mut list = TodoList::new();
    list.add_item("alice", 600);
    list.add_item("bob", 100_000);
    assert_eq!(
        sorted(list.items_at(0)),
        vec!["alice DUE SOON (due in 10 minutes)", "bob (due in 1666 minutes)"]
    );
}

#[test]
fn add_same_name_overwrites() {
    let mut list = TodoList::new();
    list.add_item("alice", 600);
    list.add_item("alice", 120);
    assert_eq!(list.items_at(0), vec!["alice DUE SOON (due in 2 minutes)"]);
}

#[test]
fn remove_present_and_absent() {
    let mut list = TodoList::new();
    list.add_item("alice", 600);
    list.add_item("bob", 600);
    list.remove_item("alice");
    assert_eq!(list.items_at(0), vec!["bob DUE SOON (due in 10 minutes)"]);
    list.remove_item("nobody");
    assert_eq!(list.items_at(0), vec!["bob DUE SOON (due in 10 minutes)"]);
    list.remove_item("bob");
    assert!(list.items_at(0).is_empty());
}

#[test]
fn set_time_on_absent_name_is_not_found() {
    let mut list = TodoList::new();
    list.add_item("alice", 600);
    let before = list.items_at(0);
    assert_eq!(list.set_item_time("carol", 5), Err(TodoError::NotFound));
    assert_eq!(list.items_at(0), before);
    assert_eq!(TodoError::NotFound.message(), "Item not found.");
}

#[test]
fn set_time_on_present_name_updates_line() {
    let mut list = TodoList::new();
    list.add_item("alice", 600);
    assert_eq!(list.set_item_time("alice", 7_200), Ok(()));
    assert_eq!(list.items_at(0), vec!["alice (due in 120 minutes)"]);
    assert_eq!(list.set_item_time("alice", -5), Ok(()));
    assert_eq!(list.items_at(0), vec!["alice OVERDUE (due in 0 minutes)"]);
}

#[test]
fn alerts_only_for_due_soon_items() {
    let mut list = TodoList::new();
    list.add_item("soon", 1_800);
    list.add_item("late", 0);
    list.add_item("later", 10_000);
    list.add_item("DUE SOON", 10_000);
    assert_eq!(list.due_alerts_at(0), vec!["Due soon: soon DUE SOON (due in 30 minutes)"]);
}

#[test]
fn clock_snapshot_matches_stored_due_times() {
    let mut list = TodoList::new();
    list.add_item("past", 0);
    list.add_item("future", i64::MAX);
    let lines = sorted(list.get_items());
    assert_eq!(lines.len(), 2);
    assert!(lines[0].starts_with("future (due in "));
    assert_eq!(lines[1], "past OVERDUE (due in 0 minutes)");
    assert!(list.due_alerts().is_empty());
}
