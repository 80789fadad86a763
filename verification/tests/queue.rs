use toktok::checker::{Checker, ServerChecker};
use toktok::queue::PriorityQueue;
use toktok::task::Task;
use toktok::task_info::TaskInfo;
use toktok::task_logger::TaskLogger;
use toktok::time::{Date, Interval, Timestamp};

fn task_due(name: &str, due_nanos: i128) -> Task {
    let day = Date { year: 2024, month: 6, day: 15 };
    let info = TaskInfo::starting_at(
        name.to_string(),
        Interval::from_secs(10).unwrap(),
        Timestamp::from_nanos(due_nanos),
    );
    let checker = Checker::Server(ServerChecker::new("127.0.0.1:80".to_string(), None));
    Task::new(info, checker, TaskLogger::new(name, "/tmp", day))
}

fn next_random(state: &mut u64) -> u64 {
    *state = state.wrapping_mul(6364136223846793005).wrapping_add(1442695040888963407);
    *state >> 33
}

#[test]
fn new_queue_is_empty() {
    let queue = PriorityQueue::new();
    assert!(queue.is_empty());
    assert_eq!(queue.len(), 0);
    assert!(queue.peek().is_none());
}

#[test]
fn default_queue_is_empty() {
    let mut queue = PriorityQueue::default();
    assert!(queue.is_empty());
    assert!(queue.try_dequeue().is_none());
    assert!(queue.is_empty());
}

#[test]
fn dequeue_returns_tasks_in_due_order() {
    let mut queue = PriorityQueue::new();
    for (name, due) in [("c", 30), ("a", 10), ("e", 50), ("b", 20), ("d", 40)] {
        queue.enqueue(task_due(name, due));
    }
    assert_eq!(queue.len(), 5);
    let mut names = Vec::new();
    while !queue.is_empty() {
        names.push(queue.dequeue().name());
    }
    assert_eq!(names, vec!["a", "b", "c", "d", "e"]);
}

#[test]
fn peek_shows_the_minimum_and_does_not_remove() {
    let mut queue = PriorityQueue::new();
    queue.enqueue(task_due("late", 900));
    queue.enqueue(task_due("early", -5));
    queue.enqueue(task_due("middle", 100));
    assert_eq!(queue.peek().unwrap().name(), "early");
    assert_eq!(queue.peek().unwrap().next_execution_at().as_nanos(), -5);
    assert_eq!(queue.len(), 3);
    assert_eq!(queue.dequeue().name(), "early");
    assert_eq!(queue.peek().unwrap().name(), "middle");
    assert_eq!(queue.len(), 2);
}

#[test]
fn try_dequeue_gives_none_only_when_empty() {
    let mut queue = PriorityQueue::new();
    assert!(queue.try_dequeue().is_none());
    queue.enqueue(task_due("only", 7));
    let task = queue.try_dequeue().unwrap();
    assert_eq!(task.name(), "only");
    assert!(queue.try_dequeue().is_none());
}

#[test]
fn tasks_due_at_the_same_instant_all_come_out() {
    let mut queue = PriorityQueue::new();
    for name in ["x", "y", "z"] {
        queue.enqueue(task_due(name, 42));
    }
    queue.enqueue(task_due("first", 1));
    assert_eq!(queue.dequeue().name(), "first");
    let mut names = vec![queue.dequeue().name(), queue.dequeue().name(), queue.dequeue().name()];
    names.sort();
    assert_eq!(names, vec!["x", "y", "z"]);
    assert!(queue.is_empty());
}

#[test]
fn dequeue_matches_peek_among_ties() {
    let mut queue = PriorityQueue::new();
    for name in ["p", "q", "r", "s"] {
        queue.enqueue(task_due(name, 5));
    }
    while !queue.is_empty() {
        let shown = queue.peek().unwrap().name();
        assert_eq!(queue.dequeue().name(), shown);
    }
}

#[test]
fn random_pushes_and_pops_agree_with_sorted_reference() {
    let mut state: u64 = 0x5eed;
    let mut queue = PriorityQueue::new();
    let mut reference: Vec<i128> = Vec::new();
    let mut counter = 0;
    for _ in 0..2000 {
        let roll = next_random(&mut state) % 3;
        if roll < 2 || reference.is_empty() {
            let due = (next_random(&mut state) % 1000) as i128 - 500;
            counter += 1;
            queue.enqueue(task_due(&format!("t{counter}"), due));
            reference.push(due);
        } else {
            reference.sort();
            let expected = reference.remove(0);
            assert_eq!(queue.peek().unwrap().next_execution_at().as_nanos(), expected);
            let popped = queue.dequeue();
            assert_eq!(popped.next_execution_at().as_nanos(), expected);
        }
        assert_eq!(queue.len(), reference.len());
    }
    reference.sort();
    for expected in reference {
        assert_eq!(queue.dequeue().next_execution_at().as_nanos(), expected);
    }
    assert!(queue.is_empty());
}

#[test]
fn descending_and_ascending_input_both_sort() {
    let mut queue = PriorityQueue::new();
    for due in (0..100).rev() {
        queue.enqueue(task_due("down", due));
    }
    for due in 100..200 {
        queue.enqueue(task_due("up", due));
    }
    for expected in 0..200 {
        assert_eq!(queue.dequeue().next_execution_at().as_nanos(), expected);
    }
}

#[test]
fn tasks_compare_by_due_instant_only() {
    let early = task_due("zebra", 1);
    let late = task_due("apple", 2);
    let twin = task_due("other", 2);
    assert!(early < late);
    assert!(late > early);
    assert!(early <= late);
    assert!(!(late < twin));
    assert!(late <= twin && late >= twin);
    assert!(late == twin);
    assert!(early != late);
    assert_eq!(early.partial_cmp(&late), Some(std::cmp::Ordering::Less));
    assert_eq!(late.partial_cmp(&early), Some(std::cmp::Ordering::Greater));
    assert_eq!(late.partial_cmp(&twin), Some(std::cmp::Ordering::Equal));
}
