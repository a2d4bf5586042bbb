use liminal_hub::active::{ActiveJobTable, JobChange, JobSnapshot};

fn snapshot(id: &str) -> JobSnapshot {
    JobSnapshot {
        id: id.to_string(),
        options: vec!["x".to_string(), "y".to_string(), "z".to_string()],
        current_highlight: 0,
        tick_count: 0,
        is_complete: false,
    }
}

fn key(id: &str) -> String {
    id.to_string()
}

#[test]
fn new_table_is_empty() {
    let table = ActiveJobTable::new();
    assert_eq!(table.len(), 0);
    assert!(table.snapshot_all().is_empty());
    assert!(table.active().is_empty());
    assert!(table.get(&key("nobody")).is_none());
}

#[test]
fn insert_adds_entries_in_order() {
    let mut table = ActiveJobTable::new();
    table.insert(snapshot("a"));
    table.insert(snapshot("b"));
    let all = table.snapshot_all();
    assert_eq!(all.len(), 2);
    assert_eq!(all[0], snapshot("a"));
    assert_eq!(all[1], snapshot("b"));
}

#[test]
fn insert_with_known_id_replaces_the_entry() {
    let mut table = ActiveJobTable::new();
    table.insert(snapshot("a"));
    table.insert(snapshot("b"));
    let mut again = snapshot("a");
    again.tick_count = 9;
    table.insert(again);
    assert_eq!(table.len(), 2);
    let all = table.snapshot_all();
    assert_eq!(all[0].id, "a");
    assert_eq!(all[0].tick_count, 9);
    assert_eq!(all[1], snapshot("b"));
}

#[test]
fn tick_update_moves_the_cursor() {
    let mut table = ActiveJobTable::new();
    table.insert(snapshot("a"));
    table.insert(snapshot("b"));
    table.update(&key("b"), JobChange::Tick { highlight: 2, tick: 5 });
    let b = table.get(&key("b")).unwrap();
    assert_eq!(b.current_highlight, 2);
    assert_eq!(b.tick_count, 5);
    assert!(!b.is_complete);
    assert_eq!(b.options, snapshot("b").options);
    assert_eq!(table.get(&key("a")).unwrap(), snapshot("a"));
}

#[test]
fn complete_update_sets_the_flag_only() {
    let mut table = ActiveJobTable::new();
    table.insert(snapshot("a"));
    table.update(&key("a"), JobChange::Tick { highlight: 1, tick: 16 });
    table.update(&key("a"), JobChange::Complete);
    let a = table.get(&key("a")).unwrap();
    assert!(a.is_complete);
    assert_eq!(a.current_highlight, 1);
    assert_eq!(a.tick_count, 16);
}

#[test]
fn update_of_missing_id_changes_nothing() {
    let mut table = ActiveJobTable::new();
    table.insert(snapshot("a"));
    table.update(&key("ghost"), JobChange::Complete);
    table.update(&key("ghost"), JobChange::Tick { highlight: 1, tick: 1 });
    assert_eq!(table.len(), 1);
    assert_eq!(table.snapshot_all()[0], snapshot("a"));
}

#[test]
fn active_lists_unfinished_jobs_only() {
    let mut table = ActiveJobTable::new();
    table.insert(snapshot("a"));
    table.insert(snapshot("b"));
    table.insert(snapshot("c"));
    table.update(&key("b"), JobChange::Complete);
    let active: Vec<String> = table.active().into_iter().map(|s| s.id).collect();
    assert_eq!(active, vec!["a", "c"]);
    assert_eq!(table.len(), 3);
    assert!(table.get(&key("b")).unwrap().is_complete);
}

#[test]
fn finished_entries_stay_in_the_table() {
    let mut table = ActiveJobTable::new();
    table.insert(snapshot("a"));
    table.update(&key("a"), JobChange::Complete);
    assert!(table.active().is_empty());
    assert_eq!(table.snapshot_all().len(), 1);
}

#[test]
fn snapshot_clone_is_equal() {
    let s = snapshot("q");
    assert_eq!(s.clone(), s);
}
