//! A personal-productivity store: tasks, scheduled events and timers, kept in
//! memory under unique identifiers, with every operation stated as a contract
//! over a mathematical model of the store.

pub mod assoc;
pub mod entity;
pub mod error;
pub mod ident;
pub mod laws;
pub mod persist;
pub mod store;
pub mod table;
pub mod time;

pub use entity::{Schedule, Task, Timer};
pub use error::{EntityKind, PersistenceFailure, StoreError};
pub use persist::{Loaded, DATA_DIR_NAME, DATA_FILE_NAME};
pub use store::{Snapshot, Store};
pub use time::{LocalTimestamp, Timestamp};
