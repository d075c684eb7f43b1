use memory_monitor::history::HistoryBuffer;
use memory_monitor::percentage::Percentage;
use memory_monitor::sampler::Sample;

fn whole(percent: u64) -> Percentage {
    Percentage::of(percent, 100)
}

fn sample_at(memory: u64, swap: u64) -> Sample {
    Sample { memory: whole(memory), swap: whole(swap) }
}

fn memory_held(h: &HistoryBuffer) -> Vec<Percentage> {
    h.snapshot().0.clone()
}

fn swap_held(h: &HistoryBuffer) -> Vec<Percentage> {
    h.snapshot().1.clone()
}

#[test]
fn new_buffer_is_empty() {
    let h = HistoryBuffer::new(3);
    assert_eq!(h.len(), 0);
    assert!(h.is_empty());
    assert_eq!(h.capacity(), 3);
    assert_eq!(memory_held(&h), Vec::<Percentage>::new());
    assert_eq!(swap_held(&h), Vec::<Percentage>::new());
}

#[test]
fn capacity_three_evicts_oldest_first() {
    let mut h = HistoryBuffer::new(3);
    h.append(sample_at(10, 1));
    assert_eq!(memory_held(&h), vec![whole(10)]);
    assert_eq!(swap_held(&h), vec![whole(1)]);
    h.append(sample_at(20, 2));
    assert_eq!(memory_held(&h), vec![whole(10), whole(20)]);
    assert_eq!(swap_held(&h), vec![whole(1), whole(2)]);
    h.append(sample_at(30, 3));
    assert_eq!(memory_held(&h), vec![whole(10), whole(20), whole(30)]);
    assert_eq!(swap_held(&h), vec![whole(1), whole(2), whole(3)]);
    h.append(sample_at(40, 4));
    assert_eq!(memory_held(&h), vec![whole(20), whole(30), whole(40)]);
    assert_eq!(swap_held(&h), vec![whole(2), whole(3), whole(4)]);
    assert_eq!(h.len(), 3);
    assert!(!h.is_empty());
}

#[test]
fn fewer_samples_than_capacity_are_all_kept() {
    let mut h = HistoryBuffer::new(100);
    let mut expected = Vec::new();
    for i in 0..37u64 {
        h.append(sample_at(i, 100 - i));
        expected.push(whole(i));
    }
    assert_eq!(h.len(), 37);
    assert_eq!(memory_held(&h), expected);
    assert_eq!(swap_held(&h)[0], whole(100));
    assert_eq!(swap_held(&h)[36], whole(64));
}

#[test]
fn more_samples_than_capacity_keep_the_newest() {
    let mut h = HistoryBuffer::new(100);
    for i in 0..250u64 {
        h.append(Sample { memory: Percentage::of(i, 1000), swap: Percentage::of(2 * i, 1000) });
        let held = std::cmp::min(i as usize + 1, 100);
        assert_eq!(h.len(), held);
        assert_eq!(h.snapshot().0.len(), held);
        assert_eq!(h.snapshot().1.len(), held);
    }
    let memory: Vec<Percentage> = (150..250u64).map(|i| Percentage::of(i, 1000)).collect();
    let swap: Vec<Percentage> = (150..250u64).map(|i| Percentage::of(2 * i, 1000)).collect();
    assert_eq!(memory_held(&h), memory);
    assert_eq!(swap_held(&h), swap);
}

#[test]
fn exactly_capacity_samples_evict_nothing() {
    let mut h = HistoryBuffer::new(4);
    for i in 1..=4u64 {
        h.append(sample_at(i, i));
    }
    assert_eq!(memory_held(&h), vec![whole(1), whole(2), whole(3), whole(4)]);
}

#[test]
fn capacity_one_keeps_the_latest() {
    let mut h = HistoryBuffer::new(1);
    h.append(sample_at(5, 6));
    h.append(sample_at(7, 8));
    assert_eq!(memory_held(&h), vec![whole(7)]);
    assert_eq!(swap_held(&h), vec![whole(8)]);
}

#[test]
fn capacity_zero_keeps_nothing() {
    let mut h = HistoryBuffer::new(0);
    h.append(sample_at(5, 6));
    assert_eq!(h.len(), 0);
    assert!(h.is_empty());
    h.append(sample_at(7, 8));
    assert_eq!(memory_held(&h), Vec::<Percentage>::new());
    assert_eq!(swap_held(&h), Vec::<Percentage>::new());
}

#[test]
fn snapshot_twice_is_the_same() {
    let mut h = HistoryBuffer::new(3);
    for i in 0..5u64 {
        h.append(sample_at(i, 2 * i));
    }
    let first = (memory_held(&h), swap_held(&h));
    let second = (memory_held(&h), swap_held(&h));
    assert_eq!(first, second);
    assert_eq!(first.0, vec![whole(2), whole(3), whole(4)]);
    assert_eq!(first.1, vec![whole(4), whole(6), whole(8)]);
    assert_eq!(h.len(), 3);
}
