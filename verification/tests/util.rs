use hamerkop::util::chunks::DisjointChunksExact;

#[test]
fn chunks_exact_basic() {
    let a = [1u8, 2, 3];
    let b = [4, 5, 6, 7];

    let mut chunks = DisjointChunksExact::<_, 2>::new(&a, &b);

    assert_eq!(chunks.next(), Some([1, 2]));
    assert_eq!(chunks.next(), Some([3, 4]));
    assert_eq!(chunks.next(), Some([5, 6]));
    assert_eq!(chunks.next(), None);
}

#[test]
fn chunks_exact_empty_first() {
    let a = [];
    let b = [1u8, 2, 3];

    let mut chunks = DisjointChunksExact::<_, 2>::new(&a, &b);

    assert_eq!(chunks.next(), Some([1, 2]));
    assert_eq!(chunks.next(), None);
}

use hamerkop::util::dedup::{dedup_partial, dedup_with_slots};
use hamerkop::util::join::Join;

#[test]
fn dedup_doc_example() {
    let mut v = vec![1, 1, 1, 2, 2, 1];
    dedup_partial(&mut v);
    assert_eq!(v, [1, 2]);
}

#[test]
fn dedup_keeps_every_value() {
    let mut v: Vec<usize> = (0..300).map(|i| i % 37).collect();
    dedup_partial(&mut v);
    let mut sorted = v.clone();
    sorted.sort();
    sorted.dedup();
    assert_eq!(sorted, (0..37).collect::<Vec<usize>>());
    for w in v.windows(2) {
        assert_ne!(w[0], w[1]);
    }
}

#[test]
fn dedup_empty() {
    let mut v: Vec<usize> = Vec::new();
    dedup_partial(&mut v);
    assert!(v.is_empty());
}

#[test]
fn chunks_drop_partial_tail() {
    let a = [1u8, 2];
    let b = [3u8];
    let mut chunks = DisjointChunksExact::<_, 2>::new(&a, &b);
    assert_eq!(chunks.next(), Some([1, 2]));
    assert_eq!(chunks.next(), None);
    assert_eq!(chunks.next(), None);
}

#[test]
fn join_tracks_pending() {
    let mut j = Join::new(vec!['x', 'y', 'z']);
    assert_eq!(j.pending(), vec![0, 1, 2]);
    j.mark_finished(1);
    assert_eq!(j.pending(), vec![0, 2]);
    *j.future_mut(2) = 'w';
    let mut n = j.next();
    assert_eq!(*n.join().future_mut(2), 'w');
}

#[test]
fn dedup_with_given_slots() {
    let mut v = vec![1, 1, 1, 2, 2, 1];
    let s1 = v.iter().map(|&x| if x == 1 { 3 } else { 5 }).collect();
    let s2 = v.iter().map(|&x| if x == 1 { 7 } else { 9 }).collect();
    dedup_with_slots(&mut v, s1, s2);
    assert_eq!(v, [1, 2]);
}

#[test]
fn dedup_with_colliding_slots_is_best_effort() {
    let mut v = vec![1, 2, 1];
    dedup_with_slots(&mut v, vec![0, 0, 0], vec![0, 0, 0]);
    assert_eq!(v, [1, 2, 1]);
}

#[test]
fn join_all_finished() {
    let mut j = Join::new(vec![1u8, 2]);
    assert!(!j.all_finished());
    j.mark_finished(0);
    assert!(!j.all_finished());
    j.mark_finished(1);
    assert!(j.all_finished());
    assert!(Join::<u8>::new(Vec::new()).all_finished());
}
