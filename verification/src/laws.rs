//! What holds of the store's operations taken together.

use crate::entity::{ScheduleView, TaskView, TimerView};
use crate::store::{Snapshot, Store, StoreView};
use vstd::prelude::*;

verus! {

/// What an operation does to the store: a record filed under its own
/// identifier, or a change to the record under an identifier. An operation
/// that fails is one of these on an identifier that is not there, and
/// changes nothing.
pub enum Operation {
    AddTask(TaskView),
    ToggleTask(Seq<char>),
    DeleteTask(Seq<char>),
    AddSchedule(ScheduleView),
    DeleteSchedule(Seq<char>),
    CreateTimer(TimerView),
    StartTimer(Seq<char>),
    StopTimer(Seq<char>),
}

impl StoreView {
    /// The store after `operation`.
    pub open spec fn apply(self, operation: Operation) -> StoreView {
        match operation {
            Operation::AddTask(task) => self.with_task(task),
            Operation::ToggleTask(id) => self.toggle_task(id),
            Operation::DeleteTask(id) => self.without_task(id),
            Operation::AddSchedule(schedule) => self.with_schedule(schedule),
            Operation::DeleteSchedule(id) => self.without_schedule(id),
            Operation::CreateTimer(timer) => self.with_timer(timer),
            Operation::StartTimer(id) => self.set_timer_running(id, true),
            Operation::StopTimer(id) => self.set_timer_running(id, false),
        }
    }

    /// The store after the operations of `operations`, one after the other.
    pub open spec fn run(self, operations: Seq<Operation>) -> StoreView
        decreases operations.len(),
    {
        if operations.len() == 0 {
            self
        } else {
            self.run(operations.drop_last()).apply(operations.last())
        }
    }
}

/// Whatever operations are made on a store, one after the other, every record
/// stays filed under its own identifier, be it the empty store they start
/// from or any store in which that holds.
pub proof fn lemma_every_run_keeps_keys(start: StoreView, operations: Seq<Operation>)
    requires
        start.keyed_by_id(),
    ensures
        start.run(operations).keyed_by_id(),
        StoreView::empty().run(operations).keyed_by_id(),
    decreases operations.len(),
{
    if operations.len() > 0 {
        lemma_every_run_keeps_keys(start, operations.drop_last());
        lemma_operations_keep_keys(start.run(operations.drop_last()));
        lemma_operations_keep_keys(StoreView::empty().run(operations.drop_last()));
    }
}

/// A snapshot of a store lists every record under a key that is the record's
/// own identifier, and maps every identifier to a record that has it.
pub proof fn lemma_snapshot_keyed_by_id(store: Store, snapshot: Snapshot)
    requires
        snapshot.is_snapshot_of(store@),
    ensures
        snapshot.filed_by_id(),
        snapshot@.keyed_by_id(),
{
    store.lemma_keyed_by_id();
}

/// Every operation keeps every record filed under its own identifier: a
/// store in which that holds is still such a store after a record was filed,
/// a task toggled, a timer started or stopped, or a record removed.
pub proof fn lemma_operations_keep_keys(v: StoreView)
    requires
        v.keyed_by_id(),
    ensures
        StoreView::empty().keyed_by_id(),
        forall|task: TaskView| #[trigger] v.with_task(task).keyed_by_id(),
        forall|id: Seq<char>| #[trigger] v.toggle_task(id).keyed_by_id(),
        forall|id: Seq<char>| #[trigger] v.without_task(id).keyed_by_id(),
        forall|schedule| #[trigger] v.with_schedule(schedule).keyed_by_id(),
        forall|id: Seq<char>| #[trigger] v.without_schedule(id).keyed_by_id(),
        forall|timer| #[trigger] v.with_timer(timer).keyed_by_id(),
        forall|id: Seq<char>, running: bool| #[trigger]
            v.set_timer_running(id, running).keyed_by_id(),
{
}

/// A task that was just added is not completed; toggling it once makes it
/// completed, and toggling it a second time puts the store back as it was.
pub proof fn lemma_added_task_toggles(v: StoreView, task: TaskView)
    requires
        !task.completed,
    ensures
        !v.with_task(task).tasks[task.id].completed,
        v.with_task(task).toggle_task(task.id).tasks[task.id].completed,
        v.with_task(task).toggle_task(task.id).toggle_task(task.id) == v.with_task(task),
{
    lemma_toggle_twice(v.with_task(task), task.id);
}

/// Toggling a task twice puts the store back as it was.
pub proof fn lemma_toggle_twice(v: StoreView, id: Seq<char>)
    ensures
        v.toggle_task(id).toggle_task(id) == v,
{
    if v.tasks.contains_key(id) {
        assert(v.toggle_task(id).toggle_task(id).tasks =~= v.tasks);
    }
}

/// Removing a task or a schedule that is not there leaves the store as it
/// was.
pub proof fn lemma_remove_absent(v: StoreView, id: Seq<char>)
    ensures
        !v.tasks.contains_key(id) ==> v.without_task(id) == v,
        !v.schedules.contains_key(id) ==> v.without_schedule(id) == v,
{
    if !v.tasks.contains_key(id) {
        assert(v.tasks.remove(id) =~= v.tasks);
    }
    if !v.schedules.contains_key(id) {
        assert(v.schedules.remove(id) =~= v.schedules);
    }
}

/// Turning a snapshot of a store back into a store gives that store.
pub proof fn lemma_snapshot_round_trip(v: StoreView, snapshot: Snapshot)
    requires
        snapshot.is_snapshot_of(v),
    ensures
        snapshot.restored() == Some(v),
{
}

/// Toggles of two different tasks do not disturb each other: in either order
/// they give the same store, in which each of the two tasks is flipped.
pub proof fn lemma_toggles_commute(v: StoreView, a: Seq<char>, b: Seq<char>)
    requires
        a != b,
    ensures
        v.toggle_task(a).toggle_task(b) == v.toggle_task(b).toggle_task(a),
        v.tasks.contains_key(a) ==> v.toggle_task(a).toggle_task(b).tasks[a] == v.tasks[a].toggled(),
        v.tasks.contains_key(b) ==> v.toggle_task(a).toggle_task(b).tasks[b] == v.tasks[b].toggled(),
{
    assert(v.toggle_task(a).toggle_task(b).tasks =~= v.toggle_task(b).toggle_task(a).tasks);
}

/// Starting or stopping two different timers does not disturb each other: in
/// either order the two switches give the same store, in which each of the
/// two timers runs or stands as its own switch says.
pub proof fn lemma_switches_commute(
    v: StoreView,
    a: Seq<char>,
    a_running: bool,
    b: Seq<char>,
    b_running: bool,
)
    requires
        a != b,
    ensures
        v.set_timer_running(a, a_running).set_timer_running(b, b_running) == v.set_timer_running(
            b,
            b_running,
        ).set_timer_running(a, a_running),
        v.timers.contains_key(a) ==> v.set_timer_running(a, a_running).set_timer_running(
            b,
            b_running,
        ).timers[a] == v.timers[a].set_running(a_running),
        v.timers.contains_key(b) ==> v.set_timer_running(a, a_running).set_timer_running(
            b,
            b_running,
        ).timers[b] == v.timers[b].set_running(b_running),
{
    assert(v.set_timer_running(a, a_running).set_timer_running(b, b_running).timers
        =~= v.set_timer_running(b, b_running).set_timer_running(a, a_running).timers);
}

/// Starting a timer that runs, or stopping one that stands, changes nothing:
/// the same switch made twice is the switch made once.
pub proof fn lemma_switch_idempotent(v: StoreView, id: Seq<char>, running: bool)
    ensures
        v.set_timer_running(id, running).set_timer_running(id, running) == v.set_timer_running(
            id,
            running,
        ),
        v.timers.contains_key(id) && v.timers[id].is_running == running ==> v.set_timer_running(
            id,
            running,
        ) == v,
{
    if v.timers.contains_key(id) {
        assert(v.set_timer_running(id, running).set_timer_running(id, running).timers
            =~= v.set_timer_running(id, running).timers);
        if v.timers[id].is_running == running {
            assert(v.timers[id].set_running(running) == v.timers[id]);
            assert(v.set_timer_running(id, running).timers =~= v.timers);
        }
    }
}

} // verus!
