use task_manager::clock::{generate_id, id_from_reading, IdError};
use task_manager::manager::TaskManager;
use task_manager::task::{decimal_string, Task};

fn snapshot(m: &TaskManager) -> Vec<(u64, String, bool)> {
    m.list_tasks()
        .iter()
        .map(|t| (t.id(), t.title().clone(), t.is_completed()))
        .collect()
}

#[test]
fn new_task_is_pending() {
    let t = Task::new(3, "Read".to_string());
    assert_eq!(t.id(), 3);
    assert_eq!(t.title(), "Read");
    assert!(!t.is_completed());
}

#[test]
fn task_toggle_flips_flag() {
    let mut t = Task::new(1, String::new());
    t.toggle_status();
    assert!(t.is_completed());
    t.toggle_status();
    assert!(!t.is_completed());
    assert_eq!(t.title(), "");
}

#[test]
fn display_pending_and_done() {
    let mut t = Task::new(1700000000, "Buy milk".to_string());
    assert_eq!(t.display(), "1700000000 [ ] - Buy milk");
    t.toggle_status();
    assert_eq!(t.display(), "1700000000 [\u{2713}] - Buy milk");
}

#[test]
fn display_zero_id_empty_title() {
    let t = Task::new(0, String::new());
    assert_eq!(t.display(), "0 [ ] - ");
}

#[test]
fn decimal_of_edges() {
    assert_eq!(decimal_string(0), "0");
    assert_eq!(decimal_string(9), "9");
    assert_eq!(decimal_string(10), "10");
    assert_eq!(decimal_string(305), "305");
    assert_eq!(decimal_string(u64::MAX), "18446744073709551615");
}

#[test]
fn new_store_is_empty() {
    let m = TaskManager::new();
    assert!(m.is_empty());
    assert_eq!(m.len(), 0);
    assert!(m.list_tasks().is_empty());
}

#[test]
fn add_then_list_gives_one_pending_task() {
    let mut m = TaskManager::new();
    let id = m.add_task_at(42, "X".to_string());
    assert_eq!(id, Ok(42));
    assert_eq!(snapshot(&m), vec![(42, "X".to_string(), false)]);
}

#[test]
fn add_from_clock_appends_with_returned_id() {
    let mut m = TaskManager::new();
    let id = m.add_task("X".to_string()).expect("clock after the epoch");
    assert_eq!(snapshot(&m), vec![(id, "X".to_string(), false)]);
    assert!(id > 0);
}

#[test]
fn generate_id_is_seconds_since_epoch() {
    let before = std::time::SystemTime::now()
        .duration_since(std::time::UNIX_EPOCH)
        .unwrap()
        .as_secs();
    let id = generate_id().unwrap();
    let after = std::time::SystemTime::now()
        .duration_since(std::time::UNIX_EPOCH)
        .unwrap()
        .as_secs();
    assert!(before <= id && id <= after);
}

#[test]
fn distinct_times_give_distinct_ids() {
    let mut m = TaskManager::new();
    for (k, t) in [100u64, 101, 105, 200].iter().enumerate() {
        assert_eq!(m.add_task_at(*t, format!("t{}", k)), Ok(*t));
    }
    let ids: Vec<u64> = snapshot(&m).iter().map(|e| e.0).collect();
    assert_eq!(ids, vec![100, 101, 105, 200]);
}

#[test]
fn toggle_existing_twice_restores() {
    let mut m = TaskManager::new();
    m.add_task_at(1, "a".to_string()).unwrap();
    m.add_task_at(2, "b".to_string()).unwrap();
    assert!(m.toggle_task(2));
    assert_eq!(snapshot(&m), vec![(1, "a".to_string(), false), (2, "b".to_string(), true)]);
    assert!(m.toggle_task(2));
    assert_eq!(snapshot(&m), vec![(1, "a".to_string(), false), (2, "b".to_string(), false)]);
}

#[test]
fn toggle_missing_changes_nothing() {
    let mut m = TaskManager::new();
    m.add_task_at(1, "a".to_string()).unwrap();
    m.add_task_at(2, "b".to_string()).unwrap();
    m.toggle_task(1);
    let before = snapshot(&m);
    assert!(!m.toggle_task(3));
    assert_eq!(snapshot(&m), before);
}

#[test]
fn toggle_on_empty_store() {
    let mut m = TaskManager::new();
    assert!(!m.toggle_task(0));
    assert!(m.is_empty());
}

#[test]
fn remove_keeps_order_of_others() {
    let mut m = TaskManager::new();
    m.add_task_at(1, "a".to_string()).unwrap();
    m.add_task_at(2, "b".to_string()).unwrap();
    m.add_task_at(3, "c".to_string()).unwrap();
    assert!(m.remove_task(2));
    assert_eq!(m.len(), 2);
    assert_eq!(snapshot(&m), vec![(1, "a".to_string(), false), (3, "c".to_string(), false)]);
    assert!(!m.remove_task(2));
    assert_eq!(m.len(), 2);
}

#[test]
fn remove_missing_changes_nothing() {
    let mut m = TaskManager::new();
    m.add_task_at(1, "a".to_string()).unwrap();
    assert!(!m.remove_task(9));
    assert_eq!(snapshot(&m), vec![(1, "a".to_string(), false)]);
}

#[test]
fn same_second_adds_get_distinct_ids() {
    let mut m = TaskManager::new();
    assert_eq!(m.add_task_at(7, "first".to_string()), Ok(7));
    assert_eq!(m.add_task_at(7, "second".to_string()), Ok(8));
    assert!(m.toggle_task(7));
    assert_eq!(snapshot(&m), vec![(7, "first".to_string(), true), (8, "second".to_string(), false)]);
    assert!(m.remove_task(7));
    assert!(!m.remove_task(7));
    assert_eq!(snapshot(&m), vec![(8, "second".to_string(), false)]);
}

#[test]
fn earlier_reading_is_raised_past_last_issued() {
    let mut m = TaskManager::new();
    assert_eq!(m.add_task_at(100, "a".to_string()), Ok(100));
    assert!(m.remove_task(100));
    assert_eq!(m.add_task_at(50, "b".to_string()), Ok(101));
    assert_eq!(snapshot(&m), vec![(101, "b".to_string(), false)]);
}

#[test]
fn largest_id_exhausts_the_store() {
    let mut m = TaskManager::new();
    assert_eq!(m.add_task_at(u64::MAX, "last".to_string()), Ok(u64::MAX));
    assert_eq!(m.add_task_at(1, "more".to_string()), Err(IdError::Exhausted));
    assert_eq!(snapshot(&m), vec![(u64::MAX, "last".to_string(), false)]);
}

#[test]
fn reading_maps_to_id_or_error() {
    assert_eq!(id_from_reading(Some(1_700_000_000)), Ok(1_700_000_000));
    assert_eq!(id_from_reading(Some(0)), Ok(0));
    assert_eq!(id_from_reading(None), Err(IdError::BeforeEpoch));
}

#[test]
fn buy_milk_scenario() {
    let mut m = TaskManager::new();
    // Distinct timestamps are forced by giving the ids directly.
    let a = m.add_task_at(1_700_000_000, "Buy milk".to_string()).unwrap();
    let b = m.add_task_at(1_700_000_001, "Clean house".to_string()).unwrap();
    assert_ne!(a, b);
    assert_eq!(
        snapshot(&m),
        vec![(a, "Buy milk".to_string(), false), (b, "Clean house".to_string(), false)]
    );
    assert!(m.toggle_task(a));
    assert!(m.list_tasks()[0].is_completed());
    assert!(m.remove_task(a));
    assert_eq!(snapshot(&m), vec![(b, "Clean house".to_string(), false)]);
}
