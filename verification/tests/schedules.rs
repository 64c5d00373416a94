use log_manager::{EntityKind, Schedule, Store, StoreError, Timestamp};

fn text(s: &str) -> String {
    s.to_string()
}

fn at(year: i32, month: u32, day: u32, hour: u32, minute: u32, second: u32) -> Timestamp {
    Timestamp { year, month, day, hour, minute, second, nanosecond: 0 }
}

fn sample_schedule(id: &str) -> Schedule {
    Schedule {
        id: text(id),
        title: text("Stand-up"),
        description: text("Daily"),
        start_time: at(2024, 1, 15, 9, 0, 0),
        end_time: Some(at(2024, 1, 15, 9, 15, 0)),
        is_reminder: false,
    }
}

#[test]
fn add_schedule_without_end_time() {
    let mut store = Store::new();
    let schedule = store
        .add_schedule(text("Stand-up"), text("Daily"), text("2024-01-15 09:00:00"), None, true)
        .unwrap();
    assert_eq!(schedule.title, "Stand-up");
    assert_eq!(schedule.description, "Daily");
    assert_eq!(schedule.start_time, at(2024, 1, 15, 9, 0, 0));
    assert_eq!(schedule.end_time, None);
    assert!(schedule.is_reminder);
    assert_eq!(schedule.id.len(), 36);
    assert_eq!(store.get_all().schedules, vec![(schedule.id.clone(), schedule)]);
}

#[test]
fn add_schedule_with_end_time() {
    let mut store = Store::new();
    let schedule = store
        .add_schedule(
            text("Workshop"),
            text(""),
            text("2024-01-15 09:00:00"),
            Some(text("2024-01-15 17:00:00")),
            false,
        )
        .unwrap();
    assert_eq!(schedule.start_time, at(2024, 1, 15, 9, 0, 0));
    assert_eq!(schedule.end_time, Some(at(2024, 1, 15, 17, 0, 0)));
    assert!(!schedule.is_reminder);
}

#[test]
fn add_schedule_with_bad_start_time_is_malformed() {
    let mut store = Store::new();
    store.put_schedule(sample_schedule("one"));
    let before = store.get_all();
    let outcome = store.add_schedule(text("x"), text("y"), text("not-a-date"), None, false);
    assert_eq!(
        outcome,
        Err(StoreError::Malformed("input contains invalid characters".to_string()))
    );
    assert_eq!(outcome.unwrap_err().message(), "input contains invalid characters");
    assert_eq!(store.get_all(), before);
    let mut empty = Store::new();
    assert!(matches!(
        empty.add_schedule(text("x"), text("y"), text(""), None, false),
        Err(StoreError::Malformed(_))
    ));
    assert!(empty.get_all().schedules.is_empty());
}

#[test]
fn add_schedule_with_bad_end_time_has_no_end_time() {
    let mut store = Store::new();
    let schedule = store
        .add_schedule(
            text("x"),
            text("y"),
            text("2024-01-15 09:00:00"),
            Some(text("tomorrow")),
            false,
        )
        .unwrap();
    assert_eq!(schedule.end_time, None);
    assert_eq!(store.get_all().schedules.len(), 1);
}

#[test]
fn delete_schedule_removes_it() {
    let mut store = Store::new();
    store.put_schedule(sample_schedule("one"));
    store.put_schedule(sample_schedule("two"));
    assert_eq!(store.delete_schedule(text("one")), Ok(()));
    assert_eq!(store.get_all().schedules, vec![(text("two"), sample_schedule("two"))]);
}

#[test]
fn delete_schedule_that_is_not_there_leaves_the_store_unchanged() {
    let mut store = Store::new();
    store.put_schedule(sample_schedule("one"));
    store.add_task(text("a"), text("b"), None).unwrap();
    let before = store.get_all();
    let outcome = store.delete_schedule(text("two"));
    assert_eq!(outcome, Err(StoreError::NotFound(EntityKind::Schedule)));
    assert_eq!(outcome.unwrap_err().message(), "Schedule not found");
    assert_eq!(store.get_all(), before);
}

#[test]
fn new_schedule_holds_the_fields_given() {
    let schedule = Schedule::new(
        text("one"),
        text("Stand-up"),
        text("Daily"),
        at(2024, 1, 15, 9, 0, 0),
        Some(at(2024, 1, 15, 9, 15, 0)),
        false,
    );
    assert_eq!(schedule, sample_schedule("one"));
    assert_eq!(schedule.clone(), schedule);
}
