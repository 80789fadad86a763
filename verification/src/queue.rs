//! The queue of waiting tasks: a binary min-heap ordered by the instant each
//! task is next due.

use vstd::prelude::*;
use vstd::multiset::*;
use vstd::seq_lib::*;
use crate::task::Task;

verus! {

/// `swap` of std's slices: the elements at `a` and `b` change places and
/// every other element stays where it is. It panics when an index is out of
/// bounds, so both are required to be inside the slice.
pub assume_specification<T>[ <[T]>::swap ](slice: &mut [T], a: usize, b: usize)
    requires
        a < old(slice)@.len(),
        b < old(slice)@.len(),
    ensures
        final(slice)@ == old(slice)@.update(a as int, old(slice)@[b as int]).update(
            b as int,
            old(slice)@[a as int],
        ),
;

/// The place of the parent of the heap node at place `i`.
spec fn parent(i: int) -> int {
    (i - 1) / 2
}

/// The node at place `i` is due no earlier than its parent.
spec fn above(s: Seq<Task>, i: int) -> bool {
    s[parent(i)].due() <= s[i].due()
}

/// Every node but the root is due no earlier than its parent.
spec fn heap_ordered(s: Seq<Task>) -> bool {
    forall|i: int| 0 < i < s.len() ==> #[trigger] above(s, i)
}

/// `t` is due no later than any task in `tasks`.
pub open spec fn earliest_of(t: Task, tasks: Multiset<Task>) -> bool {
    forall|u: Task| #[trigger] tasks.contains(u) ==> t.due() <= u.due()
}

/// The heap order holds everywhere but, possibly, between `hole` and its
/// parent.
spec fn ordered_except(s: Seq<Task>, hole: int) -> bool {
    forall|i: int| 0 < i < s.len() && i != hole ==> #[trigger] above(s, i)
}

/// The heap order holds everywhere but, possibly, between `hole` and its
/// children.
spec fn ordered_except_below(s: Seq<Task>, hole: int) -> bool {
    forall|i: int| 0 < i < s.len() && parent(i) != hole ==> #[trigger] above(s, i)
}

/// The children of `hole` are due no earlier than the parent of `hole`.
spec fn spans(s: Seq<Task>, hole: int) -> bool {
    forall|c: int|
        0 < c < s.len() && hole > 0 && #[trigger] parent(c) == hole ==> s[parent(hole)].due()
            <= s[c].due()
}

/// In a heap the root is due no later than any other node.
proof fn lemma_root_is_earliest(s: Seq<Task>, i: int)
    requires
        heap_ordered(s),
        0 <= i < s.len(),
    ensures
        s[0].due() <= s[i].due(),
    decreases i,
{
    if i > 0 {
        assert(above(s, i));
        lemma_root_is_earliest(s, parent(i));
    }
}

/// In a heap the root is due no later than anything the heap holds.
proof fn lemma_root_is_earliest_of_all(s: Seq<Task>)
    requires
        heap_ordered(s),
        s.len() > 0,
    ensures
        earliest_of(s[0], s.to_multiset()),
        s.to_multiset().contains(s[0]),
{
    broadcast use to_multiset_contains;

    assert forall|u: Task| #[trigger] s.to_multiset().contains(u) implies s[0].due()
        <= u.due() by {
        assert(s.contains(u));
        let i = choose|i: int| 0 <= i < s.len() && s[i] == u;
        lemma_root_is_earliest(s, i);
    }
    assert(s.contains(s[0]));
}

/// Exchanging two elements of a sequence leaves what it holds unchanged.
proof fn lemma_swap_keeps_contents(s: Seq<Task>, i: int, j: int)
    requires
        0 <= i < s.len(),
        0 <= j < s.len(),
    ensures
        s.update(i, s[j]).update(j, s[i]).to_multiset() == s.to_multiset(),
{
    broadcast use {to_multiset_contains, group_multiset_axioms};

    let s1 = s.update(i, s[j]);
    to_multiset_update(s, i, s[j]);
    to_multiset_update(s1, j, s[i]);
    assert(s.contains(s[i]));
    assert(s.contains(s[j]));
    assert(s1[j] == s[j]);
    assert(s1.update(j, s[i]).to_multiset() =~= s.to_multiset());
}

/// Moving the last element of a sequence to the front, in place of the
/// first, takes exactly the first element out of what the sequence holds.
proof fn lemma_swap_remove_contents(s: Seq<Task>)
    requires
        s.len() > 0,
    ensures
        s.to_multiset() == s.update(0, s.last()).drop_last().to_multiset().insert(s[0]),
{
    broadcast use {to_multiset_contains, group_multiset_axioms};

    let s1 = s.update(0, s.last());
    let last = s.len() - 1;
    to_multiset_update(s, 0, s.last());
    to_multiset_remove(s1, last);
    assert(s1.drop_last() =~= s1.remove(last));
    assert(s1[last] == s.last());
    assert(s.contains(s[0]));
    assert(s.contains(s.last()));
    assert(s.to_multiset() =~= s1.drop_last().to_multiset().insert(s[0]));
}

/// Moves the element at `start` towards the root until its parent is due
/// no later than it.
fn sift_up(heap: &mut Vec<Task>, start: usize)
    requires
        start < old(heap)@.len(),
        ordered_except(old(heap)@, start as int),
        spans(old(heap)@, start as int),
    ensures
        heap_ordered(final(heap)@),
        final(heap)@.to_multiset() == old(heap)@.to_multiset(),
{
    let mut idx: usize = start;
    let mut settled: bool = false;
    while idx > 0 && !settled
        invariant
            idx < heap@.len(),
            heap@.to_multiset() == old(heap)@.to_multiset(),
            ordered_except(heap@, idx as int),
            spans(heap@, idx as int),
            settled ==> heap_ordered(heap@),
        decreases idx + (if settled { 0int } else { 1int }),
    {
        let up: usize = (idx - 1) / 2;
        let moves = heap[idx].next_execution_at().is_before(*heap[up].next_execution_at());
        if moves {
            let ghost before = heap@;
            heap.as_mut_slice().swap(up, idx);
            proof {
                let after = heap@;
                lemma_swap_keeps_contents(before, up as int, idx as int);
                assert forall|i: int| 0 < i < after.len() && i != up implies #[trigger] above(
                    after,
                    i,
                ) by {
                    if i == idx {
                    } else if parent(i) == idx {
                        assert(parent(i) == idx as int);
                    } else {
                        assert(above(before, i));
                    }
                }
                assert forall|c: int|
                    0 < c < after.len() && up > 0 && #[trigger] parent(c) == up implies after[parent(
                        up as int,
                    )].due() <= after[c].due() by {
                    assert(above(before, up as int));
                    if c != idx {
                        assert(above(before, c));
                    }
                }
            }
            idx = up;
        } else {
            proof {
                assert forall|i: int| 0 < i < heap@.len() implies #[trigger] above(heap@, i) by {
                    if i != idx {
                        assert(above(heap@, i));
                    }
                }
            }
            settled = true;
        }
    }
    proof {
        if !settled {
            assert forall|i: int| 0 < i < heap@.len() implies #[trigger] above(heap@, i) by {
                assert(i != idx);
            }
        }
    }
}

/// Moves the element at the root away from it until both its children are
/// due no earlier than it.
fn sift_down(heap: &mut Vec<Task>)
    requires
        ordered_except_below(old(heap)@, 0),
    ensures
        heap_ordered(final(heap)@),
        final(heap)@.to_multiset() == old(heap)@.to_multiset(),
{
    let len: usize = heap.len();
    let mut idx: usize = 0;
    let mut settled: bool = false;
    while idx < len / 2 && !settled
        invariant
            len == heap@.len(),
            idx < len || len == 0,
            heap@.to_multiset() == old(heap)@.to_multiset(),
            ordered_except_below(heap@, idx as int),
            spans(heap@, idx as int),
            settled ==> heap_ordered(heap@),
        decreases len - idx + (if settled { 0int } else { 1int }),
    {
        let left: usize = 2 * idx + 1;
        let right: usize = left + 1;
        let mut child: usize = left;
        if right < len {
            if heap[right].next_execution_at().is_before(*heap[left].next_execution_at()) {
                child = right;
            }
        }
        let moves = heap[child].next_execution_at().is_before(*heap[idx].next_execution_at());
        if moves {
            let ghost before = heap@;
            heap.as_mut_slice().swap(idx, child);
            proof {
                let after = heap@;
                lemma_swap_keeps_contents(before, idx as int, child as int);
                assert forall|i: int|
                    0 < i < after.len() && parent(i) != child implies #[trigger] above(
                    after,
                    i,
                ) by {
                    if i == child {
                    } else if parent(i) == idx {
                        assert(i == left || i == right);
                    } else if i == idx {
                        assert(parent(child as int) == idx as int);
                    } else {
                        assert(above(before, i));
                    }
                }
                assert forall|c: int|
                    0 < c < after.len() && child > 0 && #[trigger] parent(c)
                        == child implies after[parent(child as int)].due() <= after[c].due() by {
                    assert(above(before, c));
                }
            }
            idx = child;
        } else {
            proof {
                assert forall|i: int| 0 < i < heap@.len() implies #[trigger] above(heap@, i) by {
                    if parent(i) == idx {
                        assert(i == left || i == right);
                    } else {
                        assert(above(heap@, i));
                    }
                }
            }
            settled = true;
        }
    }
    proof {
        if !settled {
            assert forall|i: int| 0 < i < heap@.len() implies #[trigger] above(heap@, i) by {
                assert(parent(i) != idx);
            }
        }
    }
}

/// The tasks that wait for their next execution. The task that is due
/// first can be looked at and taken out; nothing else leaves the queue.
#[derive(Debug)]
pub struct PriorityQueue {
    heap: Vec<Task>,
}

impl View for PriorityQueue {
    type V = Multiset<Task>;

    /// The tasks the queue holds. A task that was put in twice counts twice.
    closed spec fn view(&self) -> Multiset<Task> {
        self.heap@.to_multiset()
    }
}

impl PriorityQueue {
    #[verifier::type_invariant]
    spec fn is_heap(self) -> bool {
        heap_ordered(self.heap@)
    }

    /// The task at the front of a queue that is not empty: the one that
    /// `peek` shows and `dequeue` takes.
    pub closed spec fn front(self) -> Task {
        self.heap@[0]
    }

    /// A queue that holds nothing.
    pub fn new() -> (queue: Self)
        ensures
            queue@ == Multiset::<Task>::empty(),
    {
        let heap: Vec<Task> = Vec::new();
        proof {
            to_multiset_len(heap@);
            lemma_multiset_empty_len(heap@.to_multiset());
        }
        Self { heap }
    }

    /// How many tasks wait.
    pub fn len(&self) -> (n: usize)
        ensures
            n == self@.len(),
    {
        proof {
            to_multiset_len(self.heap@);
        }
        self.heap.len()
    }

    /// Whether no task waits.
    pub fn is_empty(&self) -> (empty: bool)
        ensures
            empty == (self@.len() == 0),
    {
        proof {
            to_multiset_len(self.heap@);
        }
        self.heap.len() == 0
    }

    /// Puts `item` into the queue.
    pub fn enqueue(&mut self, item: Task)
        ensures
            final(self)@ == old(self)@.insert(item),
    {
        proof {
            use_type_invariant(&*self);
        }
        let mut heap: Vec<Task> = Vec::new();
        core::mem::swap(&mut self.heap, &mut heap);
        push_into(&mut heap, item);
        self.heap = heap;
    }

    /// The task that is due first, without taking it out; `None` when the
    /// queue is empty. Among tasks due at the same instant it is one of
    /// them.
    pub fn peek(&self) -> (first: Option<&Task>)
        ensures
            first is None <==> self@.len() == 0,
            first matches Some(t) ==> *t == self.front() && self@.contains(*t) && earliest_of(
                *t,
                self@,
            ),
    {
        proof {
            use_type_invariant(self);
            to_multiset_len(self.heap@);
            if self.heap@.len() > 0 {
                lemma_root_is_earliest_of_all(self.heap@);
            }
        }
        if self.heap.len() == 0 {
            None
        } else {
            Some(&self.heap[0])
        }
    }

    /// Takes out the task that is due first. Among tasks due at the same
    /// instant it is the one `peek` showed.
    pub fn dequeue(&mut self) -> (first: Task)
        requires
            old(self)@.len() > 0,
        ensures
            first == old(self).front(),
            old(self)@ == final(self)@.insert(first),
            earliest_of(first, old(self)@),
    {
        proof {
            use_type_invariant(&*self);
            to_multiset_len(self.heap@);
            lemma_root_is_earliest_of_all(self.heap@);
        }
        let mut heap: Vec<Task> = Vec::new();
        core::mem::swap(&mut self.heap, &mut heap);
        let first = pop_from(&mut heap);
        self.heap = heap;
        first
    }

    /// Takes out the task that is due first, or nothing when the queue is
    /// empty.
    pub fn try_dequeue(&mut self) -> (first: Option<Task>)
        ensures
            first is None <==> old(self)@.len() == 0,
            first is None ==> final(self)@ == old(self)@,
            first matches Some(t) ==> {
                &&& t == old(self).front()
                &&& old(self)@ == final(self)@.insert(t)
                &&& earliest_of(t, old(self)@)
            },
    {
        if self.is_empty() {
            None
        } else {
            Some(self.dequeue())
        }
    }
}

impl Default for PriorityQueue {
    fn default() -> (queue: Self)
        ensures
            queue@ == Multiset::<Task>::empty(),
    {
        PriorityQueue::new()
    }
}

/// Adds `item` to a heap.
fn push_into(heap: &mut Vec<Task>, item: Task)
    requires
        heap_ordered(old(heap)@),
    ensures
        heap_ordered(final(heap)@),
        final(heap)@.to_multiset() == old(heap)@.to_multiset().insert(item),
{
    heap.push(item);
    proof {
        to_multiset_build(old(heap)@, item);
        let s = heap@;
        let last = s.len() - 1;
        assert forall|i: int| 0 < i < s.len() && i != last implies #[trigger] above(s, i) by {
            assert(above(old(heap)@, i));
        }
    }
    let last: usize = heap.len() - 1;
    sift_up(heap, last);
}

/// Takes the root out of a heap that is not empty.
fn pop_from(heap: &mut Vec<Task>) -> (first: Task)
    requires
        heap_ordered(old(heap)@),
        old(heap)@.len() > 0,
    ensures
        heap_ordered(final(heap)@),
        first == old(heap)@[0],
        old(heap)@.to_multiset() == final(heap)@.to_multiset().insert(first),
{
    let first = heap.swap_remove(0);
    proof {
        lemma_swap_remove_contents(old(heap)@);
        let s = heap@;
        assert forall|i: int| 0 < i < s.len() && parent(i) != 0 implies #[trigger] above(
            s,
            i,
        ) by {
            assert(above(old(heap)@, i));
        }
    }
    sift_down(heap);
    first
}

} // verus!
