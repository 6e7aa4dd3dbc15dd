use hamerkop::slotmap::{StableSlotmap, SLABSIZE};

#[test]
fn insert_get_remove() {
    let mut m = StableSlotmap::new();
    assert!(m.is_empty());
    let a = m.insert("a");
    let b = m.insert("b");
    assert_ne!(a, b);
    assert_eq!(m.len(), 2);
    assert_eq!(m.get(a), Some(&"a"));
    assert_eq!(*m.index(b), "b");
    assert_eq!(m.remove(a), Some("a"));
    assert_eq!(m.remove(a), None);
    assert_eq!(m.get(a), None);
    assert_eq!(m.get(b), Some(&"b"));
    assert_eq!(m.len(), 1);
}

#[test]
fn freed_slot_is_reused_first() {
    let mut m = StableSlotmap::new();
    let a = m.insert(1u32);
    let _b = m.insert(2u32);
    assert_eq!(m.remove(a), Some(1));
    let c = m.insert(3u32);
    assert_eq!(c, a);
    assert_eq!(m.get(c), Some(&3));
}

#[test]
fn grows_by_slabs() {
    let mut m = StableSlotmap::new();
    let mut ids = Vec::new();
    for i in 0..(SLABSIZE + 5) {
        ids.push(m.insert(i));
    }
    assert_eq!(m.len(), SLABSIZE + 5);
    for (i, id) in ids.iter().enumerate() {
        assert_eq!(m.get(*id), Some(&i));
    }
    assert_eq!(m.get(usize::MAX), None);
    assert_eq!(m.remove(usize::MAX), None);
}

#[test]
fn get_mut_updates() {
    let mut m = StableSlotmap::new();
    let a = m.insert(10u64);
    *m.get_mut(a).unwrap() += 5;
    assert_eq!(m.get(a), Some(&15));
    assert!(m.get_mut(a + 1).is_none());
}

#[test]
fn iter_in_slot_order() {
    let mut m = StableSlotmap::new();
    let a = m.insert('a');
    let _b = m.insert('b');
    let _c = m.insert('c');
    m.remove(a);
    let v: Vec<char> = m.iter().into_iter().cloned().collect();
    assert_eq!(v, vec!['b', 'c']);
}

#[test]
fn insert_then_remove_restores_contents() {
    let mut m = StableSlotmap::new();
    let a = m.insert(10u32);
    let b = m.insert(20u32);
    assert_eq!(m.remove(b), Some(20));
    assert_eq!(m.get(a), Some(&10));
    assert_eq!(m.get(b), None);
    assert_eq!(m.len(), 1);
    assert_eq!(m.remove(b), None);
    assert_eq!(m.len(), 1);
}
