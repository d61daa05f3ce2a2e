use elastic_conn::Handle;
use elastic_conn::Message;
use elastic_conn::Method;
use elastic_conn::Notifier;
use elastic_conn::Queue;

fn msg(token: u64, url: &str) -> Message {
    Message::new(Method::Get, String::from(url), String::new(), token)
}

#[test]
fn pop_on_empty_queue_is_none() {
    let mut q = Queue::new();
    assert!(q.try_pop().is_none());
    assert_eq!(q.len(), 0);
}

#[test]
fn fifo_across_producers() {
    // Pushes from different producers, linearized in this order.
    let mut q = Queue::new();
    q.push(msg(1, "/a"));
    q.push(msg(2, "/b"));
    q.push(msg(1, "/c"));
    q.push(msg(3, "/d"));
    assert_eq!(q.len(), 4);
    let order: Vec<String> = std::iter::from_fn(|| q.try_pop().map(|m| m.url)).collect();
    assert_eq!(order, vec!["/a", "/b", "/c", "/d"]);
    assert!(q.try_pop().is_none());
}

#[test]
fn no_loss_no_duplication_interleaved() {
    // Interleave pushes and pops; every push is observed exactly once.
    let mut q = Queue::new();
    let mut seen: Vec<u64> = Vec::new();
    q.push(msg(10, "/a"));
    q.push(msg(11, "/b"));
    seen.extend(q.try_pop().map(|m| m.token));
    q.push(msg(12, "/c"));
    seen.extend(q.try_pop().map(|m| m.token));
    seen.extend(q.try_pop().map(|m| m.token));
    assert!(q.try_pop().is_none());
    assert_eq!(seen, vec![10, 11, 12]);
}

#[test]
fn per_producer_order_is_kept() {
    let mut q = Queue::new();
    q.push(msg(7, "/first"));
    q.push(msg(9, "/x"));
    q.push(msg(7, "/second"));
    q.push(msg(7, "/third"));
    let mine: Vec<String> = std::iter::from_fn(|| q.try_pop())
        .filter(|m| m.token == 7)
        .map(|m| m.url)
        .collect();
    assert_eq!(mine, vec!["/first", "/second", "/third"]);
}

#[test]
fn push_wakes_every_listener() {
    let mut h = Handle::new(Queue::new());
    h.add_listener(Notifier::new(1));
    h.add_listener(Notifier::new(2));
    h.add_listener(Notifier::new(3));
    assert!(h.notifiers.iter().all(|n| !n.pending));
    h.push(msg(1, "/a"));
    assert!(h.notifiers.iter().all(|n| n.pending));
    assert_eq!(h.queue.len(), 1);
}

#[test]
fn late_listener_not_retroactively_notified() {
    let mut h = Handle::new(Queue::new());
    h.add_listener(Notifier::new(1));
    h.push(msg(1, "/a"));
    h.add_listener(Notifier::new(2));
    assert!(h.notifiers[0].pending);
    assert!(!h.notifiers[1].pending);
}

#[test]
fn wakeups_coalesce_and_consume_once() {
    let mut n = Notifier::new(5);
    n.wakeup();
    n.wakeup();
    n.wakeup();
    assert!(n.consume());
    assert!(!n.consume());
    assert_eq!(n.loop_id, 5);
}

#[test]
fn handle_pop_returns_oldest() {
    let mut h = Handle::new(Queue::new());
    h.push(msg(1, "/a"));
    h.push(msg(2, "/b"));
    assert_eq!(h.pop().unwrap().url, "/a");
    assert_eq!(h.pop().unwrap().url, "/b");
    assert!(h.pop().is_none());
}
