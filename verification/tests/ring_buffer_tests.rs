use horizon_hud::config::HISTORY_LEN;
use horizon_hud::ring_buffer::RingBuffer;

#[test]
fn keeps_values_in_push_order() {
    let mut r: RingBuffer<f32> = RingBuffer::new();
    assert_eq!(r.len(), 0);
    assert!(r.samples().is_empty());
    r.push(1.5);
    r.push(-2.0);
    r.push(3.25);
    assert_eq!(r.len(), 3);
    assert_eq!(r.samples(), vec![1.5, -2.0, 3.25]);
}

#[test]
fn overwrites_the_oldest_when_full() {
    let mut r: RingBuffer<u32> = RingBuffer::new();
    for v in 0..(HISTORY_LEN as u32 + 7) {
        r.push(v);
    }
    assert_eq!(r.len(), HISTORY_LEN);
    let expected: Vec<u32> = (7..(HISTORY_LEN as u32 + 7)).collect();
    assert_eq!(r.samples(), expected);
}

#[test]
fn exactly_full_keeps_everything() {
    let mut r: RingBuffer<u32> = RingBuffer::new();
    for v in 0..HISTORY_LEN as u32 {
        r.push(v);
    }
    assert_eq!(r.samples(), (0..HISTORY_LEN as u32).collect::<Vec<_>>());
    r.push(1000);
    let s = r.samples();
    assert_eq!(s.len(), HISTORY_LEN);
    assert_eq!(s[0], 1);
    assert_eq!(s[HISTORY_LEN - 1], 1000);
}

#[test]
fn last_n_takes_the_newest() {
    let mut r: RingBuffer<u32> = RingBuffer::new();
    assert!(r.last_n(5).is_empty());
    for v in 1..=4 {
        r.push(v);
    }
    assert_eq!(r.last_n(2), vec![3, 4]);
    assert_eq!(r.last_n(0), Vec::<u32>::new());
    assert_eq!(r.last_n(10), vec![1, 2, 3, 4]);
    for v in 5..=(HISTORY_LEN as u32 + 10) {
        r.push(v);
    }
    let top = HISTORY_LEN as u32 + 10;
    assert_eq!(r.last_n(3), vec![top - 2, top - 1, top]);
    assert_eq!(r.last_n(usize::MAX).len(), HISTORY_LEN);
}

#[test]
fn clear_empties() {
    let mut r: RingBuffer<u32> = RingBuffer::new();
    for v in 0..500 {
        r.push(v);
    }
    r.clear();
    assert_eq!(r.len(), 0);
    assert!(r.samples().is_empty());
    r.push(9);
    assert_eq!(r.samples(), vec![9]);
}
