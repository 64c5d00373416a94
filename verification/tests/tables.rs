use log_manager::entity::Record;
use log_manager::table::Table;
use log_manager::Timer;

fn text(s: &str) -> String {
    s.to_string()
}

fn timer(id: &str, duration: u32) -> Timer {
    Timer {
        id: text(id),
        name: text("name"),
        duration,
        elapsed: 0,
        is_running: false,
        is_pomodoro: false,
    }
}

#[test]
fn record_hands_out_its_identifier_and_a_copy() {
    let one = timer("one", 60);
    assert_eq!(Record::id(&one), "one");
    assert_eq!(one.duplicate(), one);
}

#[test]
fn new_table_holds_nothing() {
    let table: Table<Timer> = Table::new();
    assert!(table.entries().is_empty());
    assert_eq!(table.get(&text("one")), None);
}

#[test]
fn put_files_a_record_under_its_identifier() {
    let mut table = Table::new();
    table.put(timer("one", 60));
    table.put(timer("two", 120));
    assert_eq!(table.get(&text("one")), Some(&timer("one", 60)));
    assert_eq!(table.get(&text("two")), Some(&timer("two", 120)));
    assert_eq!(table.get(&text("three")), None);
    assert_eq!(table.get(&text("")), None);
    table.put(timer("one", 90));
    assert_eq!(table.get(&text("one")), Some(&timer("one", 90)));
    assert_eq!(
        table.entries(),
        vec![(text("one"), timer("one", 90)), (text("two"), timer("two", 120))]
    );
}

#[test]
fn remove_takes_out_the_record_and_tells_whether_there_was_one() {
    let mut table = Table::new();
    table.put(timer("one", 60));
    table.put(timer("two", 120));
    table.put(timer("three", 180));
    assert!(table.remove(&text("two")));
    assert!(!table.remove(&text("two")));
    assert!(!table.remove(&text("four")));
    assert_eq!(
        table.entries(),
        vec![(text("one"), timer("one", 60)), (text("three"), timer("three", 180))]
    );
    assert!(table.remove(&text("one")));
    assert!(table.remove(&text("three")));
    assert!(table.entries().is_empty());
}

#[test]
fn from_entries_wants_every_record_under_its_own_identifier() {
    let good = vec![(text("one"), timer("one", 60)), (text("two"), timer("two", 120))];
    let table = Table::from_entries(&good).unwrap();
    assert_eq!(table.entries(), good);
    let bad = vec![(text("one"), timer("one", 60)), (text("three"), timer("two", 120))];
    assert!(Table::from_entries(&bad).is_none());
    let none: Vec<(String, Timer)> = vec![];
    assert!(Table::from_entries(&none).unwrap().entries().is_empty());
}

#[test]
fn from_entries_keeps_the_last_record_of_an_identifier() {
    let listed = vec![
        (text("one"), timer("one", 60)),
        (text("two"), timer("two", 120)),
        (text("one"), timer("one", 61)),
    ];
    let table = Table::from_entries(&listed).unwrap();
    assert_eq!(table.get(&text("one")), Some(&timer("one", 61)));
    assert_eq!(table.entries().len(), 2);
}
