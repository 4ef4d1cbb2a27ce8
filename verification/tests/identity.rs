use task_manager::ID;

#[test]
fn construction_packs_index_and_generation() {
    let id = ID::new(5, 3);
    assert_eq!(id.index(), 5);
    assert_eq!(id.generation(), 3);
    assert_eq!(id.to_u64(), 0x0300_0005);
}

#[test]
fn construction_at_the_index_limit() {
    let id = ID::new(0xFF_FFFF, 0);
    assert_eq!(id.index(), 0xFF_FFFF);
    assert_eq!(id.generation(), 0);

    assert!(ID::checked_new(0xFF_FFFF, 7).is_some());
    assert!(ID::checked_new(1 << 24, 0).is_none());
    assert!(ID::checked_new(u32::MAX, 0).is_none());
}

#[test]
fn next_generation_increments_and_wraps() {
    let id = ID::new(9, 0);
    let next = id.next_generation();
    assert_eq!(next.index(), 9);
    assert_eq!(next.generation(), 1);
    assert!(!id.is_same_generation(next));

    let last = ID::new(9, 255);
    let wrapped = last.next_generation();
    assert_eq!(wrapped.index(), 9);
    assert_eq!(wrapped.generation(), 0);
    assert!(!last.is_same_generation(wrapped));
}

#[test]
fn same_generation_ignores_index() {
    let a = ID::new(1, 42);
    let b = ID::new(2, 42);
    let c = ID::new(1, 43);
    assert!(a.is_same_generation(b));
    assert!(!a.is_same_generation(c));
    assert_ne!(a, b);
    assert_eq!(a, ID::new(1, 42));
}

#[test]
fn correlation_tokens_decode_through_a_batch() {
    let raw: Vec<(u32, u64)> = vec![(1, 0x0300_0005), (4, 0x0000_0000)];
    let batch = task_manager::decode_event_batch(&raw);
    assert_eq!(batch.len(), 2);
    assert_eq!(batch[0].0, 1);
    assert_eq!(batch[0].1, ID::new(5, 3));
    assert_eq!(batch[1].0, 4);
    assert_eq!(batch[1].1, ID::new(0, 0));
}
