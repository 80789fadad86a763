//! The dispatch protocol as a whole: what waits, what is in flight, and the
//! steps that move a task from one to the other. The steps are the ones the
//! scheduler's functions take; the lemmas say what every sequence of them
//! keeps true.

use vstd::prelude::*;
use vstd::multiset::*;
use vstd::seq_lib::*;
use crate::checker::structs::{CheckerResult, CheckerStatus};
use crate::executor::routed;
use crate::notification::places;
use crate::queue::earliest_of;
use crate::scheduler::{dispatched, taken_out};
use crate::task::Task;
use crate::time::Timestamp;

verus! {

/// Every task the scheduler answers for: those that wait in the queue and
/// those that were taken out and have not come back yet, be they executing
/// or on their way between two stages.
pub struct Fleet {
    pub waiting: Multiset<Task>,
    pub in_flight: Multiset<Task>,
}

impl Fleet {
    /// All tasks, wherever they are.
    pub open spec fn all(self) -> Multiset<Task> {
        self.waiting.add(self.in_flight)
    }

    /// No task is there twice: two tasks with one name, wherever they are,
    /// are one and the same task, and it is held once.
    pub open spec fn single_flight(self) -> bool {
        &&& forall|t: Task, u: Task|
            #![trigger self.all().contains(t), self.all().contains(u)]
            self.all().contains(t) && self.all().contains(u) && t.id() == u.id() ==> t == u
        &&& forall|t: Task| self.all().contains(t) ==> #[trigger] self.all().count(t) == 1
    }

    /// Whether a task named `id` is somewhere.
    pub open spec fn knows(self, id: Seq<char>) -> bool {
        exists|t: Task| #[trigger] self.all().contains(t) && t.id() == id
    }

    /// A dispatch tick takes `burst` out of the queue and puts it in
    /// flight, whatever the clock showed while it did. Both kinds of tick
    /// are such a step: the one at a given instant and the one that reads
    /// the clock anew for every task.
    pub open spec fn dispatch(self, burst: Seq<Task>, next: Fleet) -> bool {
        &&& taken_out(self.waiting, burst, next.waiting)
        &&& next.in_flight == self.in_flight.add(burst.to_multiset())
    }

    /// An execution stamps the task in flight `task` as started at `at`.
    pub open spec fn start(self, task: Task, at: Timestamp, next: Fleet) -> bool {
        &&& self.in_flight.contains(task)
        &&& next.waiting == self.waiting
        &&& next.in_flight == self.in_flight.remove(task).insert(task.started_at(at))
    }

    /// The task in flight `task` comes back at `now` and waits again.
    pub open spec fn requeue(self, task: Task, now: Timestamp, next: Fleet) -> bool {
        &&& self.in_flight.contains(task)
        &&& next.in_flight == self.in_flight.remove(task)
        &&& next.waiting == self.waiting.insert(task.rescheduled_at(now))
    }
}

/// One step of the protocol. The lock on the queue makes each of them
/// happen as a whole, in some order.
pub enum Step {
    /// A dispatch tick that takes `burst` out of the queue.
    Dispatch { burst: Seq<Task> },
    /// The start of the execution of `task` at `at`.
    Start { task: Task, at: Timestamp },
    /// The return of `task` to the queue at `now`.
    Requeue { task: Task, now: Timestamp },
}

impl Fleet {
    /// The step `step` leads from this state to `next`.
    pub open spec fn moves(self, step: Step, next: Fleet) -> bool {
        match step {
            Step::Dispatch { burst } => self.dispatch(burst, next),
            Step::Start { task, at } => self.start(task, at, next),
            Step::Requeue { task, now } => self.requeue(task, now, next),
        }
    }
}

/// `states` is a run of the protocol: each state but the first comes from
/// the one before it by the step of `steps` at that place.
pub open spec fn is_run(states: Seq<Fleet>, steps: Seq<Step>) -> bool {
    &&& states.len() == steps.len() + 1
    &&& forall|i: int| 0 <= i < steps.len() ==> (#[trigger] states[i]).moves(steps[i], states[i + 1])
}

/// Replacing a task by one of the same name keeps every name held once.
proof fn lemma_replace_keeps_single(before: Multiset<Task>, task: Task, new: Task, after: Multiset<
    Task,
>)
    requires
        before.contains(task),
        new.id() == task.id(),
        after == before.remove(task).insert(new),
        forall|t: Task, u: Task|
            #![trigger before.contains(t), before.contains(u)]
            before.contains(t) && before.contains(u) && t.id() == u.id() ==> t == u,
        forall|t: Task| before.contains(t) ==> #[trigger] before.count(t) == 1,
    ensures
        forall|t: Task, u: Task|
            #![trigger after.contains(t), after.contains(u)]
            after.contains(t) && after.contains(u) && t.id() == u.id() ==> t == u,
        forall|t: Task| after.contains(t) ==> #[trigger] after.count(t) == 1,
        forall|t: Task| after.contains(t) ==> t == new || before.contains(t),
        forall|t: Task| before.contains(t) && t != task ==> after.contains(t),
        after.contains(new),
{
    broadcast use group_multiset_axioms;

    let rest = before.remove(task);
    assert(before.count(task) == 1);
    assert(!rest.contains(task));
    assert forall|t: Task| rest.contains(t) implies before.contains(t) && t != task
        && t.id() != task.id() by {
        if t.id() == task.id() {
            assert(before.contains(t) && before.contains(task));
        }
    }
    assert(!rest.contains(new)) by {
        if rest.contains(new) {
            assert(new.id() != task.id());
        }
    }
    assert forall|t: Task, u: Task|
        #![trigger after.contains(t), after.contains(u)]
        after.contains(t) && after.contains(u) && t.id() == u.id() implies t == u by {
        if t != new && u != new {
            assert(rest.contains(t) && rest.contains(u));
            assert(before.contains(t) && before.contains(u));
        } else if t != new {
            assert(rest.contains(t));
        } else if u != new {
            assert(rest.contains(u));
        }
    }
    assert forall|t: Task| after.contains(t) implies #[trigger] after.count(t) == 1 by {
        if t != new {
            assert(rest.contains(t));
            assert(before.count(t) == 1);
        }
    }
}

/// The names of `tasks` differ from one another.
pub open spec fn names_differ(tasks: Seq<Task>) -> bool {
    forall|i: int, j: int|
        0 <= i < j < tasks.len() ==> (#[trigger] tasks[i]).id() != (#[trigger] tasks[j]).id()
}

/// Single flight from the start: a scheduler that is made with tasks whose
/// names differ from one another, and with nothing in flight, has no task
/// twice.
pub proof fn lemma_fresh_fleet_is_single_flight(tasks: Seq<Task>)
    requires
        names_differ(tasks),
    ensures
        (Fleet { waiting: tasks.to_multiset(), in_flight: Multiset::empty() }).single_flight(),
{
    broadcast use {group_multiset_axioms, to_multiset_contains};

    let fleet = Fleet { waiting: tasks.to_multiset(), in_flight: Multiset::empty() };
    assert(fleet.all() =~= tasks.to_multiset());
    assert(tasks.no_duplicates()) by {
        assert forall|i: int, j: int| 0 <= i < tasks.len() && 0 <= j < tasks.len() && i
            != j implies tasks[i] != tasks[j] by {
            if i < j {
                assert(tasks[i].id() != tasks[j].id());
            } else {
                assert(tasks[j].id() != tasks[i].id());
            }
        }
    }
    tasks.lemma_multiset_has_no_duplicates();
    assert forall|t: Task, u: Task|
        #![trigger fleet.all().contains(t), fleet.all().contains(u)]
        fleet.all().contains(t) && fleet.all().contains(u) && t.id() == u.id() implies t == u by {
        assert(tasks.contains(t) && tasks.contains(u));
        let i = choose|i: int| 0 <= i < tasks.len() && tasks[i] == t;
        let j = choose|j: int| 0 <= j < tasks.len() && tasks[j] == u;
        if i < j {
            assert(tasks[i].id() != tasks[j].id());
        } else if j < i {
            assert(tasks[j].id() != tasks[i].id());
        }
    }
}

/// Single flight at a tick: when no task was there twice before a dispatch
/// tick, none is after it, and no task of the burst, under its name, is
/// still in the queue.
pub proof fn lemma_dispatch_keeps_single_flight(before: Fleet, burst: Seq<Task>, after: Fleet)
    requires
        before.single_flight(),
        before.dispatch(burst, after),
    ensures
        after.single_flight(),
        after.all() == before.all(),
        forall|i: int, u: Task|
            0 <= i < burst.len() && #[trigger] after.waiting.contains(u) ==> u.id()
                != (#[trigger] burst[i]).id(),
{
    broadcast use {group_multiset_axioms, to_multiset_contains};

    assert(after.all() =~= before.all());
    assert forall|i: int, u: Task|
        0 <= i < burst.len() && #[trigger] after.waiting.contains(u) implies u.id()
        != (#[trigger] burst[i]).id() by {
        let t = burst[i];
        assert(burst.contains(t));
        assert(burst.to_multiset().count(t) > 0);
        assert(after.in_flight.contains(t));
        assert(after.all().contains(t));
        assert(after.all().contains(u));
        if u.id() == t.id() {
            assert(u == t);
            assert(after.all().count(t) == 1);
            assert(after.waiting.count(t) + after.in_flight.count(t) == 1);
        }
    }
}

/// Single flight while a task runs: stamping the start of an execution
/// keeps every task there once and every task in its place.
pub proof fn lemma_start_keeps_single_flight(before: Fleet, task: Task, at: Timestamp, after: Fleet)
    requires
        before.single_flight(),
        before.start(task, at, after),
    ensures
        after.single_flight(),
        forall|id: Seq<char>| before.knows(id) <==> after.knows(id),
{
    broadcast use group_multiset_axioms;

    let new = task.started_at(at);
    task.lemma_started_at(at);
    assert(before.all().contains(task));
    assert(after.all() =~= before.all().remove(task).insert(new));
    lemma_replace_keeps_single(before.all(), task, new, after.all());
    lemma_same_names(before, task, new, after);
}

/// Single flight when a task comes back: when no task was there twice
/// before a task in flight is put back into the queue, none is after it.
/// The task is in the queue again only from this step on.
pub proof fn lemma_requeue_keeps_single_flight(
    before: Fleet,
    task: Task,
    now: Timestamp,
    after: Fleet,
)
    requires
        before.single_flight(),
        before.requeue(task, now, after),
    ensures
        after.single_flight(),
        forall|u: Task| #[trigger] before.waiting.contains(u) ==> u.id() != task.id(),
        forall|id: Seq<char>| before.knows(id) <==> after.knows(id),
{
    broadcast use group_multiset_axioms;

    let new = task.rescheduled_at(now);
    task.lemma_rescheduled_at(now);
    assert(before.all().contains(task));
    assert(after.all() =~= before.all().remove(task).insert(new));
    lemma_replace_keeps_single(before.all(), task, new, after.all());
    lemma_same_names(before, task, new, after);
    assert forall|u: Task| #[trigger] before.waiting.contains(u) implies u.id()
        != task.id() by {
        assert(before.all().contains(u));
        if u.id() == task.id() {
            assert(u == task);
            assert(before.all().count(task) == 1);
            assert(before.waiting.count(task) + before.in_flight.count(task) == 1);
        }
    }
}

/// Single flight, whatever the interleaving: in a run that starts with no
/// task there twice, no state has a task twice, be it in the queue, in
/// flight, or one in each; and every state knows the same tasks by name, so
/// none is lost on the way.
pub proof fn lemma_single_flight_always(states: Seq<Fleet>, steps: Seq<Step>, at: int)
    requires
        is_run(states, steps),
        states[0].single_flight(),
        0 <= at < states.len(),
    ensures
        states[at].single_flight(),
        forall|id: Seq<char>| states[0].knows(id) <==> states[at].knows(id),
    decreases at,
{
    if at > 0 {
        lemma_single_flight_always(states, steps, at - 1);
        let before = states[at - 1];
        let after = states[at];
        assert(before.moves(steps[at - 1], after));
        match steps[at - 1] {
            Step::Dispatch { burst } => {
                lemma_dispatch_keeps_single_flight(before, burst, after);
            },
            Step::Start { task, at } => {
                lemma_start_keeps_single_flight(before, task, at, after);
            },
            Step::Requeue { task, now } => {
                lemma_requeue_keeps_single_flight(before, task, now, after);
            },
        }
    }
}

/// Replacing a task by one of the same name loses no name and adds none.
proof fn lemma_same_names(before: Fleet, task: Task, new: Task, after: Fleet)
    requires
        before.all().contains(task),
        new.id() == task.id(),
        after.all().contains(new),
        forall|t: Task| after.all().contains(t) ==> t == new || before.all().contains(t),
        forall|t: Task| before.all().contains(t) && t != task ==> after.all().contains(t),
    ensures
        forall|id: Seq<char>| before.knows(id) <==> after.knows(id),
{
    assert forall|id: Seq<char>| before.knows(id) <==> after.knows(id) by {
        if before.knows(id) {
            let t = choose|t: Task| #[trigger] before.all().contains(t) && t.id() == id;
            if t == task {
                assert(after.all().contains(new) && new.id() == id);
            } else {
                assert(after.all().contains(t) && t.id() == id);
            }
        }
        if after.knows(id) {
            let t = choose|t: Task| #[trigger] after.all().contains(t) && t.id() == id;
            if t == new {
                assert(before.all().contains(task) && task.id() == id);
            } else {
                assert(before.all().contains(t) && t.id() == id);
            }
        }
    }
}

/// A tick takes out exactly the tasks that are due: each as often as the
/// queue held it, and none that is not due.
pub proof fn lemma_burst_is_what_was_due(
    before: Multiset<Task>,
    now: Timestamp,
    burst: Seq<Task>,
    after: Multiset<Task>,
    task: Task,
)
    requires
        dispatched(before, now, burst, after),
    ensures
        task.due() <= now@ ==> burst.to_multiset().count(task) == before.count(task)
            && after.count(task) == 0,
        task.due() > now@ ==> burst.to_multiset().count(task) == 0 && after.count(task)
            == before.count(task),
{
    broadcast use {group_multiset_axioms, to_multiset_contains};

    if task.due() <= now@ {
        if after.count(task) > 0 {
            assert(after.contains(task));
        }
    } else {
        if burst.to_multiset().count(task) > 0 {
            assert(burst.contains(task));
            let i = choose|i: int| 0 <= i < burst.len() && burst[i] == task;
            assert(burst[i].due() <= now@);
        }
    }
}

/// A lone task that is due exactly at the instant of the tick leaves with
/// that tick, and the queue is empty after it.
pub proof fn lemma_due_now_is_dispatched(
    task: Task,
    now: Timestamp,
    burst: Seq<Task>,
    after: Multiset<Task>,
)
    requires
        task.due() == now@,
        dispatched(Multiset::empty().insert(task), now, burst, after),
    ensures
        burst == seq![task],
        after == Multiset::<Task>::empty(),
{
    broadcast use {group_multiset_axioms, to_multiset_contains};

    let before = Multiset::empty().insert(task);
    assert(after.count(task) == 0) by {
        if after.count(task) > 0 {
            assert(after.contains(task));
        }
    }
    assert(before.count(task) == 1);
    assert(burst.to_multiset().count(task) == 1);
    to_multiset_len(burst);
    assert(before.len() == 1);
    lemma_multiset_empty_len(after);
    assert(burst.len() == 1);
    assert(burst.contains(task));
    assert(burst =~= seq![task]);
    assert(after =~= Multiset::<Task>::empty());
}

/// A tick on an empty queue takes nothing out and leaves the queue empty.
pub proof fn lemma_empty_queue_idles(now: Timestamp, burst: Seq<Task>, after: Multiset<Task>)
    requires
        dispatched(Multiset::empty(), now, burst, after),
    ensures
        burst == Seq::<Task>::empty(),
        after == Multiset::<Task>::empty(),
{
    broadcast use group_multiset_axioms;

    to_multiset_len(burst);
    assert(Multiset::<Task>::empty().len() == 0);
    lemma_multiset_empty_len(after);
    assert(burst =~= Seq::<Task>::empty());
    assert(after =~= Multiset::<Task>::empty());
}

/// A task that is rescheduled at `now` is due exactly one interval after
/// `now`, whatever the interval, as long as that instant can be counted.
pub proof fn lemma_reschedule_round_trip(task: Task, now: Timestamp)
    requires
        i128::MIN <= now@ + task.info().interval@ <= i128::MAX,
    ensures
        task.rescheduled_at(now).due() == now@ + task.info().interval@,
        task.rescheduled_at(now).info().interval == task.info().interval,
{
    task.lemma_rescheduled_at(now);
    crate::time::lemma_plus_adds(now, task.info().interval);
}

/// The places a result reaches among `notifiers` notifiers: all of them,
/// once each and in list order, unless the check succeeded; then none.
pub open spec fn fan_out(result: CheckerResult, notifiers: nat) -> Seq<usize> {
    match routed(result) {
        Some(_) => places(notifiers),
        None => Seq::empty(),
    }
}

/// A result that is not a success reaches every notifier exactly once; a
/// success reaches none.
pub proof fn lemma_fan_out_once_each(result: CheckerResult, notifiers: nat)
    requires
        notifiers <= usize::MAX,
    ensures
        result.status == CheckerStatus::Success ==> fan_out(result, notifiers).len() == 0,
        result.status != CheckerStatus::Success ==> {
            &&& routed(result) == Some(result)
            &&& fan_out(result, notifiers).len() == notifiers
            &&& fan_out(result, notifiers).no_duplicates()
            &&& forall|k: int|
                0 <= k < notifiers ==> (#[trigger] fan_out(result, notifiers)[k]) == k
        },
{
}

} // verus!
