use spam_guard::queue::{MessageQueue, Priority, QueueSnapshot};

#[test]
fn drain_returns_high_then_normal_in_push_order() {
    let mut q = MessageQueue::new();
    q.push(Priority::Normal, "n1");
    q.push(Priority::High, "h1");
    q.push(Priority::Normal, "n2");
    q.push(Priority::High, "h2");
    q.push(Priority::High, "h3");
    assert_eq!(q.drain_ordered(), vec!["h1", "h2", "h3", "n1", "n2"]);
    assert!(q.drain_ordered().is_empty());
}

#[test]
fn snapshot_counts_lanes() {
    let mut q = MessageQueue::new();
    for i in 0..3 {
        q.push(Priority::High, i);
    }
    for i in 0..2 {
        q.push(Priority::Normal, i);
    }
    assert_eq!(q.snapshot(), QueueSnapshot { high_priority: 3, normal_priority: 2 });
    let drained = q.drain_ordered();
    assert_eq!(drained.len(), 5);
    assert_eq!(q.snapshot(), QueueSnapshot { high_priority: 0, normal_priority: 0 });
}

#[test]
fn interleaved_producers_lose_and_duplicate_nothing() {
    let producers = 4u32;
    let per_producer = 25u32;
    let mut q = MessageQueue::new();
    let mut seen: Vec<u32> = Vec::new();
    for round in 0..per_producer {
        for p in 0..producers {
            let lane = if (p + round) % 3 == 0 { Priority::High } else { Priority::Normal };
            q.push(lane, p * 1000 + round);
        }
        if round % 7 == 6 {
            seen.extend(q.drain_ordered());
        }
    }
    seen.extend(q.drain_ordered());
    seen.extend(q.drain_ordered());
    assert_eq!(seen.len(), (producers * per_producer) as usize);
    seen.sort();
    seen.dedup();
    assert_eq!(seen.len(), (producers * per_producer) as usize);
}

#[test]
fn empty_queue_drains_nothing() {
    let mut q: MessageQueue<u8> = MessageQueue::new();
    assert_eq!(q.snapshot(), QueueSnapshot::default());
    assert!(q.drain_ordered().is_empty());
}
