//! The scheduler: which tasks leave the queue at a tick, and how a task
//! comes back to it.

use vstd::prelude::*;
use vstd::multiset::*;
use vstd::seq_lib::*;
use crate::parser::Configuration;
use crate::queue::{earliest_of, PriorityQueue};
use crate::task::Task;
use crate::time::{clock_now, Timestamp, DURATION_LIMIT};

verus! {

/// None of `tasks` is due yet when the clock shows `now`.
pub open spec fn none_due(tasks: Multiset<Task>, now: Timestamp) -> bool {
    forall|u: Task| #[trigger] tasks.contains(u) ==> u.due() > now@
}

/// The tasks of `burst` come in the order in which they are due.
pub open spec fn in_due_order(burst: Seq<Task>) -> bool {
    forall|i: int, j: int| 0 <= i <= j < burst.len() ==> burst[i].due() <= burst[j].due()
}

/// Every task of `burst` is due no later than any task in `rest`.
pub open spec fn all_before(burst: Seq<Task>, rest: Multiset<Task>) -> bool {
    forall|i: int| 0 <= i < burst.len() ==> earliest_of(#[trigger] burst[i], rest)
}

/// `burst` was taken out of the queue `before`, and `after` is what is
/// left: nothing else came or went.
pub open spec fn taken_out(before: Multiset<Task>, burst: Seq<Task>, after: Multiset<Task>) -> bool {
    before == after.add(burst.to_multiset())
}

/// One tick at `now` took `burst` out of the queue `before` and left
/// `after`: the burst holds exactly the tasks that were due, the earliest
/// first, and everything else still waits.
pub open spec fn dispatched(
    before: Multiset<Task>,
    now: Timestamp,
    burst: Seq<Task>,
    after: Multiset<Task>,
) -> bool {
    &&& taken_out(before, burst, after)
    &&& forall|i: int| 0 <= i < burst.len() ==> (#[trigger] burst[i]).due() <= now@
    &&& none_due(after, now)
    &&& in_due_order(burst)
}

/// Owns the queue of waiting tasks.
#[derive(Debug)]
pub struct Scheduler {
    tasks: PriorityQueue,
}

impl Scheduler {
    /// The tasks that wait in the queue.
    pub closed spec fn waiting(self) -> Multiset<Task> {
        self.tasks@
    }

    /// A scheduler whose queue holds the tasks of `config`, each once for
    /// each time it is listed.
    pub fn new(config: Configuration) -> (scheduler: Self)
        ensures
            scheduler.waiting() == config.tasks@.to_multiset(),
    {
        let mut queue = PriorityQueue::new();
        let tasks = config.tasks;
        let ghost all = tasks@;
        proof {
            assert(all.take(0) =~= Seq::<Task>::empty());
            to_multiset_len(all.take(0));
            lemma_multiset_empty_len(all.take(0).to_multiset());
        }
        for task in it: tasks
            invariant
                it.seq() == all,
                queue@ == all.take(it.index()).to_multiset(),
        {
            proof {
                let done = all.take(it.index());
                assert(all.take(it.index() + 1) =~= done.push(task));
                to_multiset_build(done, task);
            }
            queue.enqueue(task);
        }
        proof {
            assert(all.take(all.len() as int) =~= all);
        }
        Self { tasks: queue }
    }

    /// How many tasks wait.
    pub fn len(&self) -> (n: usize)
        ensures
            n == self.waiting().len(),
    {
        self.tasks.len()
    }

    /// Takes out the task that is due first, if it is due when the clock
    /// shows `now`. A task due exactly at `now` is taken.
    pub fn next_due(&mut self, now: Timestamp) -> (next: Option<Task>)
        ensures
            match next {
                Some(t) => {
                    &&& old(self).waiting() == final(self).waiting().insert(t)
                    &&& t.due() <= now@
                    &&& earliest_of(t, old(self).waiting())
                },
                None => {
                    &&& final(self).waiting() == old(self).waiting()
                    &&& none_due(old(self).waiting(), now)
                },
            },
    {
        let due = match self.tasks.peek() {
            Some(first) => first.next_execution_at().is_due(now),
            None => false,
        };
        if due {
            Some(self.tasks.dequeue())
        } else {
            None
        }
    }

    /// One dispatch tick with the clock at `now`: takes out every task that
    /// is due, the earliest first, and leaves the others waiting.
    pub fn dispatch_due(&mut self, now: Timestamp) -> (burst: Vec<Task>)
        ensures
            dispatched(old(self).waiting(), now, burst@, final(self).waiting()),
    {
        let mut burst: Vec<Task> = Vec::new();
        let mut idle: bool = false;
        proof {
            lemma_nothing_added(self.waiting(), burst@);
        }
        while !idle
            invariant
                old(self).waiting() == self.waiting().add(burst@.to_multiset()),
                forall|i: int| 0 <= i < burst@.len() ==> (#[trigger] burst@[i]).due() <= now@,
                in_due_order(burst@),
                all_before(burst@, self.waiting()),
                idle ==> none_due(self.waiting(), now),
            decreases self.waiting().len() + (if idle { 0int } else { 1int }),
        {
            let ghost waiting = self.waiting();
            let ghost taken = burst@;
            match self.next_due(now) {
                Some(task) => {
                    burst.push(task);
                    proof {
                        lemma_one_more_taken(waiting, self.waiting(), taken, task);
                    }
                },
                None => {
                    idle = true;
                },
            }
        }
        burst
    }

    /// One dispatch tick by the system clock: takes out the task that is due
    /// first for as long as the clock, read anew each time, has reached it.
    /// The burst comes out earliest first; what is left was not due at the
    /// last reading.
    pub fn tick(&mut self) -> (burst: Vec<Task>)
        ensures
            taken_out(old(self).waiting(), burst@, final(self).waiting()),
            in_due_order(burst@),
            all_before(burst@, final(self).waiting()),
            forall|i: int| 0 <= i < burst@.len() ==> (#[trigger] burst@[i]).due() <= DURATION_LIMIT,
            exists|last: Timestamp|
                -DURATION_LIMIT <= last@ <= DURATION_LIMIT && #[trigger] none_due(
                    final(self).waiting(),
                    last,
                ),
    {
        let mut burst: Vec<Task> = Vec::new();
        let mut idle: bool = false;
        let mut now = clock_now();
        proof {
            lemma_nothing_added(self.waiting(), burst@);
        }
        while !idle
            invariant
                old(self).waiting() == self.waiting().add(burst@.to_multiset()),
                forall|i: int|
                    0 <= i < burst@.len() ==> (#[trigger] burst@[i]).due() <= DURATION_LIMIT,
                in_due_order(burst@),
                all_before(burst@, self.waiting()),
                -DURATION_LIMIT <= now@ <= DURATION_LIMIT,
                idle ==> none_due(self.waiting(), now),
            decreases self.waiting().len() + (if idle { 0int } else { 1int }),
        {
            let ghost waiting = self.waiting();
            let ghost taken = burst@;
            now = clock_now();
            match self.next_due(now) {
                Some(task) => {
                    burst.push(task);
                    proof {
                        lemma_one_more_taken(waiting, self.waiting(), taken, task);
                    }
                },
                None => {
                    idle = true;
                },
            }
        }
        burst
    }

    /// Puts back a task whose execution has ended: it becomes due one
    /// interval after `now` and waits again.
    pub fn requeue_at(&mut self, task: Task, now: Timestamp)
        requires
            now@ + task.info().interval@ <= i128::MAX,
        ensures
            final(self).waiting() == old(self).waiting().insert(task.rescheduled_at(now)),
            task.rescheduled_at(now).due() == now@ + task.info().interval@,
    {
        let mut task = task;
        task.reschedule_at(now);
        self.tasks.enqueue(task);
    }

    /// Puts back a task whose execution has ended: it becomes due one
    /// interval after the instant the system clock shows and waits again.
    pub fn requeue(&mut self, task: Task)
        ensures
            exists|now: Timestamp|
                {
                    &&& -DURATION_LIMIT <= now@ <= DURATION_LIMIT
                    &&& final(self).waiting() == old(self).waiting().insert(
                        #[trigger] task.rescheduled_at(now),
                    )
                    &&& task.rescheduled_at(now).due() == now@ + task.info().interval@
                },
    {
        let mut task = task;
        task.set_next_execution_at();
        self.tasks.enqueue(task);
    }
}

/// Before anything is taken, the queue holds what it held.
proof fn lemma_nothing_added(waiting: Multiset<Task>, burst: Seq<Task>)
    requires
        burst.len() == 0,
    ensures
        waiting == waiting.add(burst.to_multiset()),
{
    broadcast use group_multiset_axioms;

    to_multiset_len(burst);
    lemma_multiset_empty_len(burst.to_multiset());
    assert(waiting =~= waiting.add(burst.to_multiset()));
}

/// Taking the earliest waiting task and putting it at the end of the burst
/// keeps the burst in order, still ahead of what waits, and the total
/// unchanged.
proof fn lemma_one_more_taken(
    waiting: Multiset<Task>,
    left: Multiset<Task>,
    taken: Seq<Task>,
    task: Task,
)
    requires
        waiting == left.insert(task),
        earliest_of(task, waiting),
        in_due_order(taken),
        all_before(taken, waiting),
    ensures
        waiting.add(taken.to_multiset()) == left.add(taken.push(task).to_multiset()),
        in_due_order(taken.push(task)),
        all_before(taken.push(task), left),
        left.len() < waiting.len(),
{
    broadcast use group_multiset_axioms;

    let more = taken.push(task);
    to_multiset_build(taken, task);
    assert(waiting.add(taken.to_multiset()) =~= left.add(more.to_multiset()));
    assert(waiting.contains(task));
    assert forall|i: int, j: int| 0 <= i <= j < more.len() implies more[i].due()
        <= more[j].due() by {
        if j == taken.len() && i < j {
            assert(earliest_of(taken[i], waiting));
        }
    }
    assert forall|i: int| 0 <= i < more.len() implies earliest_of(#[trigger] more[i], left) by {
        assert forall|u: Task| #[trigger] left.contains(u) implies more[i].due() <= u.due() by {
            assert(waiting.contains(u));
            if i < taken.len() {
                assert(earliest_of(taken[i], waiting));
            }
        }
    }
}

} // verus!
