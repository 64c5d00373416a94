//! The three kinds of record: passive values, each filed under its own
//! identifier.

use crate::time::{LocalTimestamp, Timestamp};
use vstd::prelude::*;

verus! {

/// A value that the store files under an identifier of its own.
pub trait Record: View + Sized {
    /// The identifier under which a record with the view `v` is filed.
    spec fn key_of(v: Self::V) -> Seq<char>;

    /// The record's identifier.
    fn id(&self) -> (r: &String)
        ensures
            r@ == Self::key_of(self@),
    ;

    /// A copy of the record, equal to it field by field.
    fn duplicate(&self) -> (r: Self)
        ensures
            r@ == self@,
    ;
}

/// Something to do, with an optional date by which it is due.
#[derive(Debug, PartialEq, Eq)]
pub struct Task {
    pub id: String,
    pub title: String,
    pub description: String,
    pub completed: bool,
    pub created_at: LocalTimestamp,
    pub due_date: Option<Timestamp>,
}

/// A `Task` as contracts speak of it.
pub struct TaskView {
    pub id: Seq<char>,
    pub title: Seq<char>,
    pub description: Seq<char>,
    pub completed: bool,
    pub created_at: LocalTimestamp,
    pub due_date: Option<Timestamp>,
}

impl View for Task {
    type V = TaskView;

    open spec fn view(&self) -> TaskView {
        TaskView {
            id: self.id@,
            title: self.title@,
            description: self.description@,
            completed: self.completed,
            created_at: self.created_at,
            due_date: self.due_date,
        }
    }
}

impl Clone for Task {
    fn clone(&self) -> (r: Self)
        ensures
            r@ == self@,
    {
        Task {
            id: self.id.clone(),
            title: self.title.clone(),
            description: self.description.clone(),
            completed: self.completed,
            created_at: self.created_at,
            due_date: self.due_date,
        }
    }
}

impl Record for Task {
    open spec fn key_of(v: TaskView) -> Seq<char> {
        v.id
    }

    fn id(&self) -> (r: &String) {
        &self.id
    }

    fn duplicate(&self) -> (r: Self) {
        self.clone()
    }
}

impl TaskView {
    /// A task as it is on creation: not yet completed.
    pub open spec fn fresh(
        id: Seq<char>,
        created_at: LocalTimestamp,
        title: Seq<char>,
        description: Seq<char>,
        due_date: Option<Timestamp>,
    ) -> TaskView {
        TaskView { id, title, description, completed: false, created_at, due_date }
    }

    /// The same task with `completed` flipped.
    pub open spec fn toggled(self) -> TaskView {
        TaskView { completed: !self.completed, ..self }
    }
}

impl Task {
    /// A task as it is on creation: not yet completed.
    pub fn new(
        id: String,
        created_at: LocalTimestamp,
        title: String,
        description: String,
        due_date: Option<Timestamp>,
    ) -> (r: Task)
        ensures
            r@ == TaskView::fresh(id@, created_at, title@, description@, due_date),
    {
        Task { id, title, description, completed: false, created_at, due_date }
    }

    /// A copy of the task with `completed` flipped.
    pub fn toggled(&self) -> (r: Task)
        ensures
            r@ == self@.toggled(),
    {
        let mut r = self.clone();
        r.completed = !self.completed;
        r
    }
}

/// An event at a point in time, or over a range of time.
#[derive(Debug, PartialEq, Eq)]
pub struct Schedule {
    pub id: String,
    pub title: String,
    pub description: String,
    pub start_time: Timestamp,
    pub end_time: Option<Timestamp>,
    pub is_reminder: bool,
}

/// A `Schedule` as contracts speak of it.
pub struct ScheduleView {
    pub id: Seq<char>,
    pub title: Seq<char>,
    pub description: Seq<char>,
    pub start_time: Timestamp,
    pub end_time: Option<Timestamp>,
    pub is_reminder: bool,
}

impl View for Schedule {
    type V = ScheduleView;

    open spec fn view(&self) -> ScheduleView {
        ScheduleView {
            id: self.id@,
            title: self.title@,
            description: self.description@,
            start_time: self.start_time,
            end_time: self.end_time,
            is_reminder: self.is_reminder,
        }
    }
}

impl Clone for Schedule {
    fn clone(&self) -> (r: Self)
        ensures
            r@ == self@,
    {
        Schedule {
            id: self.id.clone(),
            title: self.title.clone(),
            description: self.description.clone(),
            start_time: self.start_time,
            end_time: self.end_time,
            is_reminder: self.is_reminder,
        }
    }
}

impl Record for Schedule {
    open spec fn key_of(v: ScheduleView) -> Seq<char> {
        v.id
    }

    fn id(&self) -> (r: &String) {
        &self.id
    }

    fn duplicate(&self) -> (r: Self) {
        self.clone()
    }
}

impl Schedule {
    /// A schedule entry with the fields given.
    pub fn new(
        id: String,
        title: String,
        description: String,
        start_time: Timestamp,
        end_time: Option<Timestamp>,
        is_reminder: bool,
    ) -> (r: Schedule)
        ensures
            r@ == (ScheduleView {
                id: id@,
                title: title@,
                description: description@,
                start_time,
                end_time,
                is_reminder,
            }),
    {
        Schedule { id, title, description, start_time, end_time, is_reminder }
    }
}

/// A countdown of `duration` seconds, of which `elapsed` have passed.
#[derive(Debug, PartialEq, Eq)]
pub struct Timer {
    pub id: String,
    pub name: String,
    pub duration: u32,
    pub elapsed: u32,
    pub is_running: bool,
    pub is_pomodoro: bool,
}

/// A `Timer` as contracts speak of it.
pub struct TimerView {
    pub id: Seq<char>,
    pub name: Seq<char>,
    pub duration: u32,
    pub elapsed: u32,
    pub is_running: bool,
    pub is_pomodoro: bool,
}

impl View for Timer {
    type V = TimerView;

    open spec fn view(&self) -> TimerView {
        TimerView {
            id: self.id@,
            name: self.name@,
            duration: self.duration,
            elapsed: self.elapsed,
            is_running: self.is_running,
            is_pomodoro: self.is_pomodoro,
        }
    }
}

impl Clone for Timer {
    fn clone(&self) -> (r: Self)
        ensures
            r@ == self@,
    {
        Timer {
            id: self.id.clone(),
            name: self.name.clone(),
            duration: self.duration,
            elapsed: self.elapsed,
            is_running: self.is_running,
            is_pomodoro: self.is_pomodoro,
        }
    }
}

impl Record for Timer {
    open spec fn key_of(v: TimerView) -> Seq<char> {
        v.id
    }

    fn id(&self) -> (r: &String) {
        &self.id
    }

    fn duplicate(&self) -> (r: Self) {
        self.clone()
    }
}

impl TimerView {
    /// A timer as it is on creation: nothing elapsed, not running.
    pub open spec fn fresh(id: Seq<char>, name: Seq<char>, duration: u32, is_pomodoro: bool) -> TimerView {
        TimerView { id, name, duration, elapsed: 0, is_running: false, is_pomodoro }
    }

    /// The same timer, running or stopped as `running` says.
    pub open spec fn set_running(self, running: bool) -> TimerView {
        TimerView { is_running: running, ..self }
    }
}

impl Timer {
    /// A timer as it is on creation: nothing elapsed, not running.
    pub fn new(id: String, name: String, duration: u32, is_pomodoro: bool) -> (r: Timer)
        ensures
            r@ == TimerView::fresh(id@, name@, duration, is_pomodoro),
    {
        Timer { id, name, duration, elapsed: 0, is_running: false, is_pomodoro }
    }

    /// A copy of the timer, running or stopped as `running` says.
    pub fn set_running(&self, running: bool) -> (r: Timer)
        ensures
            r@ == self@.set_running(running),
    {
        let mut r = self.clone();
        r.is_running = running;
        r
    }
}

} // verus!
