//! The store: three mappings from identifier to record, one for each kind,
//! and the operations that callers invoke on them.

use crate::assoc::{assoc_map, keys_distinct};
use crate::entity::{Schedule, ScheduleView, Task, TaskView, Timer, TimerView};
use crate::error::{EntityKind, StoreError, StoreErrorView};
use crate::ident::{fresh_id, is_generated_id};
use crate::table::{entry_rows, filed_by_id, keyed_by_id, Table};
use crate::time::{
    local_now, optional_timestamp, parse_optional, parse_required, parsed_timestamp, strict,
    Timestamp,
};
use vstd::prelude::*;

verus! {

/// The store as contracts speak of it: for each kind, the mapping from
/// identifier to record.
pub struct StoreView {
    pub tasks: Map<Seq<char>, TaskView>,
    pub schedules: Map<Seq<char>, ScheduleView>,
    pub timers: Map<Seq<char>, TimerView>,
}

impl StoreView {
    /// The store with no record of any kind.
    pub open spec fn empty() -> StoreView {
        StoreView { tasks: Map::empty(), schedules: Map::empty(), timers: Map::empty() }
    }

    /// Every record is filed under its own identifier.
    pub open spec fn keyed_by_id(self) -> bool {
        &&& keyed_by_id::<Task>(self.tasks)
        &&& keyed_by_id::<Schedule>(self.schedules)
        &&& keyed_by_id::<Timer>(self.timers)
    }

    /// The store with `task` filed under its identifier.
    pub open spec fn with_task(self, task: TaskView) -> StoreView {
        StoreView { tasks: self.tasks.insert(task.id, task), ..self }
    }

    /// The store with the task under `id` flipped between completed and not;
    /// the same store where there is no such task.
    pub open spec fn toggle_task(self, id: Seq<char>) -> StoreView {
        if self.tasks.contains_key(id) {
            StoreView { tasks: self.tasks.insert(id, self.tasks[id].toggled()), ..self }
        } else {
            self
        }
    }

    /// The store without a task under `id`.
    pub open spec fn without_task(self, id: Seq<char>) -> StoreView {
        StoreView { tasks: self.tasks.remove(id), ..self }
    }

    /// The store with `schedule` filed under its identifier.
    pub open spec fn with_schedule(self, schedule: ScheduleView) -> StoreView {
        StoreView { schedules: self.schedules.insert(schedule.id, schedule), ..self }
    }

    /// The store without a schedule under `id`.
    pub open spec fn without_schedule(self, id: Seq<char>) -> StoreView {
        StoreView { schedules: self.schedules.remove(id), ..self }
    }

    /// The store with `timer` filed under its identifier.
    pub open spec fn with_timer(self, timer: TimerView) -> StoreView {
        StoreView { timers: self.timers.insert(timer.id, timer), ..self }
    }

    /// The store with the timer under `id` running or stopped as `running`
    /// says; the same store where there is no such timer.
    pub open spec fn set_timer_running(self, id: Seq<char>, running: bool) -> StoreView {
        if self.timers.contains_key(id) {
            StoreView {
                timers: self.timers.insert(id, self.timers[id].set_running(running)),
                ..self
            }
        } else {
            self
        }
    }
}

/// A full copy of the store's contents: for each kind, every record with the
/// key it is filed under.
#[derive(Debug, PartialEq, Eq)]
pub struct Snapshot {
    pub tasks: Vec<(String, Task)>,
    pub schedules: Vec<(String, Schedule)>,
    pub timers: Vec<(String, Timer)>,
}

impl View for Snapshot {
    type V = StoreView;

    /// The three mappings that the snapshot lists; where a key is listed more
    /// than once, its last record counts.
    open spec fn view(&self) -> StoreView {
        StoreView {
            tasks: assoc_map(entry_rows(self.tasks@)),
            schedules: assoc_map(entry_rows(self.schedules@)),
            timers: assoc_map(entry_rows(self.timers@)),
        }
    }
}

impl Snapshot {
    /// Every record is listed under a key equal to its own identifier.
    pub open spec fn filed_by_id(&self) -> bool {
        &&& filed_by_id(self.tasks@)
        &&& filed_by_id(self.schedules@)
        &&& filed_by_id(self.timers@)
    }

    /// No key is listed twice within a kind.
    pub open spec fn keys_distinct(&self) -> bool {
        &&& keys_distinct(entry_rows(self.tasks@))
        &&& keys_distinct(entry_rows(self.schedules@))
        &&& keys_distinct(entry_rows(self.timers@))
    }

    /// The snapshot lists exactly what `store` holds: each record once, under
    /// its own identifier.
    pub open spec fn is_snapshot_of(&self, store: StoreView) -> bool {
        &&& self@ == store
        &&& self.filed_by_id()
        &&& self.keys_distinct()
    }

    /// The store that the snapshot can be turned back into: the mappings it
    /// lists, if every record is listed under its own identifier.
    pub open spec fn restored(&self) -> Option<StoreView> {
        if self.filed_by_id() {
            Some(self@)
        } else {
            None
        }
    }
}

/// The in-memory collection of all tasks, schedules and timers. It is the
/// sole owner of its records: callers get copies.
pub struct Store {
    tasks: Table<Task>,
    schedules: Table<Schedule>,
    timers: Table<Timer>,
}

impl View for Store {
    type V = StoreView;

    closed spec fn view(&self) -> StoreView {
        StoreView { tasks: self.tasks@, schedules: self.schedules@, timers: self.timers@ }
    }
}

impl Default for Store {
    /// The store with no record of any kind.
    fn default() -> (r: Store)
        ensures
            r@ == StoreView::empty(),
    {
        Store::new()
    }
}

impl Store {
    /// In every store, every record is filed under its own identifier, and
    /// each mapping is finite.
    pub proof fn lemma_keyed_by_id(self)
        ensures
            self@.keyed_by_id(),
            self@.tasks.dom().finite(),
            self@.schedules.dom().finite(),
            self@.timers.dom().finite(),
    {
        self.tasks.lemma_keyed_by_id();
        self.schedules.lemma_keyed_by_id();
        self.timers.lemma_keyed_by_id();
    }

    /// The store with no record of any kind.
    pub fn new() -> (r: Store)
        ensures
            r@ == StoreView::empty(),
    {
        Store { tasks: Table::new(), schedules: Table::new(), timers: Table::new() }
    }

    /// A full copy of the store's contents.
    pub fn get_all(&self) -> (r: Snapshot)
        ensures
            r.is_snapshot_of(self@),
    {
        Snapshot {
            tasks: self.tasks.entries(),
            schedules: self.schedules.entries(),
            timers: self.timers.entries(),
        }
    }

    /// The store that holds what `snapshot` lists, if every record is listed
    /// under a key equal to its own identifier.
    pub fn restore(snapshot: &Snapshot) -> (r: Option<Store>)
        ensures
            match r {
                Some(store) => snapshot.restored() == Some(store@),
                None => snapshot.restored() is None,
            },
    {
        let tasks = match Table::from_entries(&snapshot.tasks) {
            Some(table) => table,
            None => {
                return None;
            },
        };
        let schedules = match Table::from_entries(&snapshot.schedules) {
            Some(table) => table,
            None => {
                return None;
            },
        };
        let timers = match Table::from_entries(&snapshot.timers) {
            Some(table) => table,
            None => {
                return None;
            },
        };
        Some(Store { tasks, schedules, timers })
    }

    /// Files `task` under its own identifier, in the place of the task that
    /// was filed there, if there was one.
    pub fn put_task(&mut self, task: Task)
        ensures
            final(self)@ == old(self)@.with_task(task@),
    {
        self.tasks.put(task);
    }

    /// Files `schedule` under its own identifier, in the place of the
    /// schedule that was filed there, if there was one.
    pub fn put_schedule(&mut self, schedule: Schedule)
        ensures
            final(self)@ == old(self)@.with_schedule(schedule@),
    {
        self.schedules.put(schedule);
    }

    /// Files `timer` under its own identifier, in the place of the timer that
    /// was filed there, if there was one.
    pub fn put_timer(&mut self, timer: Timer)
        ensures
            final(self)@ == old(self)@.with_timer(timer@),
    {
        self.timers.put(timer);
    }

    /// Creates a task under a newly generated identifier, with the current
    /// local time as its time of creation, and returns a copy of it. Text for
    /// the due date that cannot be read leaves the task without a due date.
    pub fn add_task(&mut self, title: String, description: String, due_date: Option<String>) -> (r:
        Result<Task, StoreError>)
        ensures
            r matches Ok(task) && {
                &&& task@ == TaskView::fresh(
                    task@.id,
                    task@.created_at,
                    title@,
                    description@,
                    optional_timestamp(due_date),
                )
                &&& is_generated_id(task@.id)
                &&& task@.created_at.wf()
                &&& final(self)@ == old(self)@.with_task(task@)
            },
    {
        let id = fresh_id();
        let created_at = local_now();
        let due = parse_optional(&due_date);
        let task = Task::new(id, created_at, title, description, due);
        self.put_task(task.clone());
        Ok(task)
    }

    /// Flips the task under `task_id` between completed and not, and returns
    /// the new value.
    pub fn toggle_task(&mut self, task_id: String) -> (r: Result<bool, StoreError>)
        ensures
            final(self)@ == old(self)@.toggle_task(task_id@),
            match r {
                Ok(completed) => old(self)@.tasks.contains_key(task_id@) && completed == !old(
                    self,
                )@.tasks[task_id@].completed,
                Err(e) => !old(self)@.tasks.contains_key(task_id@) && e@ == StoreErrorView::NotFound(
                    EntityKind::Task,
                ),
            },
    {
        proof {
            self.tasks.lemma_keyed_by_id();
        }
        match self.tasks.get(&task_id) {
            Some(task) => {
                let flipped = task.toggled();
                let completed = flipped.completed;
                self.tasks.put(flipped);
                Ok(completed)
            },
            None => Err(StoreError::NotFound(EntityKind::Task)),
        }
    }

    /// Removes the task under `task_id`.
    pub fn delete_task(&mut self, task_id: String) -> (r: Result<(), StoreError>)
        ensures
            match r {
                Ok(()) => old(self)@.tasks.contains_key(task_id@) && final(self)@ == old(
                    self,
                )@.without_task(task_id@),
                Err(e) => !old(self)@.tasks.contains_key(task_id@) && e@ == StoreErrorView::NotFound(
                    EntityKind::Task,
                ) && final(self)@ == old(self)@,
            },
    {
        if self.tasks.remove(&task_id) {
            Ok(())
        } else {
            Err(StoreError::NotFound(EntityKind::Task))
        }
    }

    /// Creates a schedule under a newly generated identifier and returns a
    /// copy of it. Text for the start time that cannot be read is an error,
    /// and nothing is created; text for the end time that cannot be read
    /// leaves the schedule without an end time.
    pub fn add_schedule(
        &mut self,
        title: String,
        description: String,
        start_time: String,
        end_time: Option<String>,
        is_reminder: bool,
    ) -> (r: Result<Schedule, StoreError>)
        ensures
            match r {
                Ok(schedule) => {
                    &&& parsed_timestamp(start_time@) matches Ok(start)
                    &&& schedule@ == (ScheduleView {
                        id: schedule@.id,
                        title: title@,
                        description: description@,
                        start_time: start,
                        end_time: optional_timestamp(end_time),
                        is_reminder,
                    })
                    &&& is_generated_id(schedule@.id)
                    &&& final(self)@ == old(self)@.with_schedule(schedule@)
                },
                Err(e) => {
                    &&& strict(parsed_timestamp(start_time@)) == Err::<Timestamp, StoreErrorView>(e@)
                    &&& final(self)@ == old(self)@
                },
            },
    {
        let id = fresh_id();
        let start = match parse_required(&start_time) {
            Ok(start) => start,
            Err(e) => {
                return Err(e);
            },
        };
        let end = parse_optional(&end_time);
        let schedule = Schedule::new(id, title, description, start, end, is_reminder);
        self.put_schedule(schedule.clone());
        Ok(schedule)
    }

    /// Removes the schedule under `schedule_id`.
    pub fn delete_schedule(&mut self, schedule_id: String) -> (r: Result<(), StoreError>)
        ensures
            match r {
                Ok(()) => old(self)@.schedules.contains_key(schedule_id@) && final(self)@ == old(
                    self,
                )@.without_schedule(schedule_id@),
                Err(e) => !old(self)@.schedules.contains_key(schedule_id@) && e@
                    == StoreErrorView::NotFound(EntityKind::Schedule) && final(self)@ == old(self)@,
            },
    {
        if self.schedules.remove(&schedule_id) {
            Ok(())
        } else {
            Err(StoreError::NotFound(EntityKind::Schedule))
        }
    }

    /// Creates a timer under a newly generated identifier, with nothing
    /// elapsed and not running, and returns a copy of it.
    pub fn create_timer(&mut self, name: String, duration: u32, is_pomodoro: bool) -> (r: Timer)
        ensures
            r@ == TimerView::fresh(r@.id, name@, duration, is_pomodoro),
            is_generated_id(r@.id),
            final(self)@ == old(self)@.with_timer(r@),
    {
        let id = fresh_id();
        let timer = Timer::new(id, name, duration, is_pomodoro);
        self.put_timer(timer.clone());
        timer
    }

    /// Sets the timer under `timer_id` running. A timer that runs already
    /// stays as it is.
    pub fn start_timer(&mut self, timer_id: String) -> (r: Result<(), StoreError>)
        ensures
            final(self)@ == old(self)@.set_timer_running(timer_id@, true),
            match r {
                Ok(()) => old(self)@.timers.contains_key(timer_id@),
                Err(e) => !old(self)@.timers.contains_key(timer_id@) && e@
                    == StoreErrorView::NotFound(EntityKind::Timer),
            },
    {
        self.set_running(timer_id, true)
    }

    /// Stops the timer under `timer_id`. A timer that is stopped already
    /// stays as it is.
    pub fn stop_timer(&mut self, timer_id: String) -> (r: Result<(), StoreError>)
        ensures
            final(self)@ == old(self)@.set_timer_running(timer_id@, false),
            match r {
                Ok(()) => old(self)@.timers.contains_key(timer_id@),
                Err(e) => !old(self)@.timers.contains_key(timer_id@) && e@
                    == StoreErrorView::NotFound(EntityKind::Timer),
            },
    {
        self.set_running(timer_id, false)
    }

    fn set_running(&mut self, timer_id: String, running: bool) -> (r: Result<(), StoreError>)
        ensures
            final(self)@ == old(self)@.set_timer_running(timer_id@, running),
            match r {
                Ok(()) => old(self)@.timers.contains_key(timer_id@),
                Err(e) => !old(self)@.timers.contains_key(timer_id@) && e@
                    == StoreErrorView::NotFound(EntityKind::Timer),
            },
    {
        proof {
            self.timers.lemma_keyed_by_id();
        }
        match self.timers.get(&timer_id) {
            Some(timer) => {
                let changed = timer.set_running(running);
                self.timers.put(changed);
                Ok(())
            },
            None => Err(StoreError::NotFound(EntityKind::Timer)),
        }
    }
}

} // verus!
