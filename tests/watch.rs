use qazer::bot::logic::apply;
use qazer::watch::Watcher;

fn drain(w: &mut Watcher<u64>) -> Vec<u64> {
    let mut out = Vec::new();
    while let Some(k) = w.take_due() {
        out.push(k);
    }
    out
}

#[test]
fn seeded_keys_come_due_in_delay_order() {
    let mut w = Watcher::from_iter(vec![(1, 5000), (2, 2000)]);
    assert_eq!(w.peek(), Some(2));
    assert_eq!(w.front_delay(), Some(2000));
    assert_eq!(w.take_due(), Some(2));
    assert_eq!(w.front_delay(), Some(3000));
    assert_eq!(w.take_due(), Some(1));
    assert_eq!(w.take_due(), None);
}

#[test]
fn earlier_push_preempts_outstanding_wait() {
    let mut w = Watcher::from_iter(vec![(1, 10000)]);
    let mut rx = w.begin_wait();
    w.push(2, 1000);
    assert!(rx.try_recv().is_ok());
    assert_eq!(w.peek(), Some(2));
    assert_eq!(w.front_delay(), Some(1000));
    assert_eq!(w.take_due(), Some(2));
    assert_eq!(w.front_delay(), Some(9000));
    assert_eq!(w.take_due(), Some(1));
}

#[test]
fn later_push_does_not_wake_the_waiter() {
    let mut w = Watcher::from_iter(vec![(1, 1000)]);
    let mut rx = w.begin_wait();
    w.push(2, 5000);
    assert!(rx.try_recv().is_err());
    assert_eq!(w.peek(), Some(1));
}

#[test]
fn push_without_waiter_sends_nothing() {
    let mut w: Watcher<u64> = Watcher::new();
    w.push(1, 3000);
    let mut rx = w.begin_wait();
    assert!(rx.try_recv().is_err());
    w.push(2, 1000);
    assert!(rx.try_recv().is_ok());
}

#[test]
fn pushes_come_out_sorted_by_delay() {
    let mut w: Watcher<u64> = Watcher::new();
    for (k, d) in [(1, 700), (2, 300), (3, 900), (4, 100), (5, 500)] {
        w.push(k, d);
    }
    assert_eq!(drain(&mut w), vec![4, 2, 5, 1, 3]);
}

#[test]
fn equal_delays_keep_insertion_order() {
    let mut w: Watcher<u64> = Watcher::new();
    w.push(1, 400);
    w.push(2, 200);
    w.push(3, 400);
    w.push(4, 200);
    assert_eq!(drain(&mut w), vec![2, 4, 1, 3]);
    let mut v = Watcher::from_iter(vec![(7, 50), (8, 50), (9, 10)]);
    assert_eq!(drain(&mut v), vec![9, 7, 8]);
}

#[test]
fn take_due_rebases_remaining_delays() {
    let mut w = Watcher::from_iter(vec![(1, 1500), (2, 4000), (3, 1500), (4, 9000)]);
    assert_eq!(w.take_due(), Some(1));
    assert_eq!(w.front_delay(), Some(0));
    assert_eq!(w.take_due(), Some(3));
    assert_eq!(w.front_delay(), Some(2500));
    assert_eq!(w.take_due(), Some(2));
    assert_eq!(w.front_delay(), Some(5000));
}

#[test]
fn take_due_on_empty_queue_is_none() {
    let mut w: Watcher<u64> = Watcher::new();
    let _rx = w.begin_wait();
    assert_eq!(w.take_due(), None);
    assert_eq!(w.peek(), None);
    assert_eq!(w.front_delay(), None);
}

#[test]
fn pop_keeps_delays_and_wakes() {
    let mut w = Watcher::from_iter(vec![(1, 1000), (2, 3000)]);
    let mut rx = w.begin_wait();
    assert_eq!(w.pop(), Some(1));
    assert!(rx.try_recv().is_ok());
    assert_eq!(w.front_delay(), Some(3000));
    assert_eq!(w.pop(), Some(2));
    assert_eq!(w.pop(), None);
}

#[test]
fn apply_without_interval_is_a_no_op() {
    let mut w = Watcher::from_iter(vec![(1, 1000)]);
    apply(&mut w, 2, None);
    apply(&mut w, 1, None);
    assert_eq!(drain(&mut w), vec![1]);
}

#[test]
fn apply_for_queued_key_adds_second_node() {
    let mut w = Watcher::from_iter(vec![(1, 1000)]);
    apply(&mut w, 1, Some(3000));
    assert_eq!(w.take_due(), Some(1));
    assert_eq!(w.front_delay(), Some(2000));
    assert_eq!(w.take_due(), Some(1));
    assert_eq!(w.take_due(), None);
}
