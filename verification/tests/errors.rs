use log_manager::{EntityKind, PersistenceFailure, StoreError};

#[test]
fn not_found_names_the_kind() {
    assert_eq!(StoreError::NotFound(EntityKind::Task).message(), "Task not found");
    assert_eq!(StoreError::NotFound(EntityKind::Schedule).message(), "Schedule not found");
    assert_eq!(StoreError::NotFound(EntityKind::Timer).message(), "Timer not found");
}

#[test]
fn malformed_carries_the_reason() {
    assert_eq!(StoreError::Malformed("trailing input".to_string()).message(), "trailing input");
    assert_eq!(StoreError::Malformed(String::new()).message(), "");
}

#[test]
fn persistence_failures_say_what_failed() {
    assert_eq!(
        PersistenceFailure::Read("permission denied".to_string()).message(),
        "Failed to read data file: permission denied"
    );
    assert_eq!(
        PersistenceFailure::Parse("expected value at line 1 column 1".to_string()).message(),
        "Failed to parse data file: expected value at line 1 column 1"
    );
    assert_eq!(
        PersistenceFailure::Misfiled.message(),
        "Failed to parse data file: a record is filed under a key that is not its id"
    );
    assert_eq!(
        PersistenceFailure::Serialize("key must be a string".to_string()).message(),
        "Failed to serialize app state: key must be a string"
    );
    assert_eq!(
        PersistenceFailure::Write("disk full".to_string()).message(),
        "Failed to save data file: disk full"
    );
}
