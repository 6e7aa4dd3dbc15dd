use hamerkop::fixedvec::FixedVec;

fn from_slice(cap: usize, items: &[u8]) -> FixedVec<u8> {
    let mut v = FixedVec::with_capacity(cap);
    v.extend_from_slice(items);
    v
}

#[test]
fn with_capacity_is_empty() {
    let fv = FixedVec::<u8>::with_capacity(128);
    assert_eq!(fv.len(), 0);
    assert_eq!(fv.capacity(), 128);
    assert_eq!(fv.available(), 128);
}

#[test]
fn clear_empties() {
    let mut vec = from_slice(16, &[1, 2, 3, 4, 5]);
    vec.clear();
    assert!(vec.is_empty());
    assert_eq!(vec.capacity(), 16);
}

#[test]
fn resize_with_default_and_closure() {
    let mut vec = from_slice(16, &[1, 2, 3]);
    vec.resize_with(5, Default::default);
    assert_eq!(vec.as_slice(), &[1, 2, 3, 0, 0][..]);

    let mut vec = FixedVec::with_capacity(16);
    let mut p = 1;
    vec.resize_with(4, || {
        p *= 2;
        p
    });
    assert_eq!(vec.as_slice(), &[2, 4, 8, 16][..]);

    vec.resize_with(2, || 0);
    assert_eq!(vec.as_slice(), &[2, 4][..]);
}

#[test]
fn resize_fills_with_value() {
    let mut vec = from_slice(8, &[9]);
    vec.resize(4, 7);
    assert_eq!(vec.as_slice(), &[9, 7, 7, 7][..]);
    vec.resize(1, 0);
    assert_eq!(vec.as_slice(), &[9][..]);
}

#[test]
fn swap_remove_moves_last() {
    let mut v = from_slice(16, &[1, 2, 3, 4]);
    assert_eq!(v.swap_remove(1), 2);
    assert_eq!(v.as_slice(), &[1, 4, 3][..]);
    assert_eq!(v.swap_remove(0), 1);
    assert_eq!(v.as_slice(), &[3, 4][..]);
    assert_eq!(v.swap_remove(1), 4);
    assert_eq!(v.as_slice(), &[3][..]);
}

#[test]
fn retain_keeps_order() {
    let mut vec = from_slice(16, &[1, 2, 3, 4]);
    vec.retain(|&x| x % 2 == 0u8);
    assert_eq!(vec.as_slice(), &[2, 4][..]);
}

#[test]
fn retain_visits_each_once_in_order() {
    let mut vec = from_slice(16, &[5, 6, 7]);
    let mut seen = Vec::new();
    vec.retain(|&x| {
        seen.push(x);
        x != 6
    });
    assert_eq!(seen, vec![5, 6, 7]);
    assert_eq!(vec.as_slice(), &[5, 7][..]);
}

#[test]
fn drain_then_extend() {
    let mut a = from_slice(16, &[1, 2, 3, 4, 5, 6]);
    let mut b = FixedVec::with_capacity(16);
    b.extend(&mut a.drain(2, 5));
    assert_eq!(a.as_slice(), &[1, 2, 6][..]);
    assert_eq!(b.as_slice(), &[3, 4, 5][..]);
}

#[test]
fn extend_takes_only_what_fits() {
    let mut a = from_slice(8, &[1, 2, 3, 4, 5]);
    let mut b = FixedVec::with_capacity(2);
    let mut d = a.drain(1, 4);
    b.extend(&mut d);
    assert_eq!(b.as_slice(), &[2, 3][..]);
    assert_eq!(d.next(), Some(4));
    assert_eq!(d.next(), None);
}

#[test]
fn append_moves_what_fits() {
    let mut a = from_slice(8, &[1, 2, 3, 4, 5]);
    let mut b = from_slice(8, &[1, 2, 3, 4, 5]);
    a.append(&mut b);
    assert_eq!(a.as_slice(), &[1, 2, 3, 4, 5, 1, 2, 3][..]);
    assert_eq!(b.as_slice(), &[4, 5][..]);
}

#[test]
fn append_keeps_rest_in_order() {
    let mut a = from_slice(3, &[0]);
    let mut b = from_slice(10, &[1, 2, 3, 4, 5, 6, 7, 8, 9, 10]);
    a.append(&mut b);
    assert_eq!(a.as_slice(), &[0, 1, 2][..]);
    assert_eq!(b.as_slice(), &[3, 4, 5, 6, 7, 8, 9, 10][..]);
}

#[test]
fn push_fails_when_full() {
    let mut v = FixedVec::with_capacity(2);
    assert_eq!(v.push(1u8), Ok(()));
    assert_eq!(v.push(2u8), Ok(()));
    assert_eq!(v.push(3u8), Err(3));
    assert_eq!(v.as_slice(), &[1, 2][..]);
    assert_eq!(v.pop(), Some(2));
    assert_eq!(v.pop(), Some(1));
    assert_eq!(v.pop(), None);
}

#[test]
fn insert_and_remove_shift() {
    let mut v = from_slice(5, &[1, 3]);
    v.insert(1, 2);
    v.insert(3, 4);
    assert_eq!(v.as_slice(), &[1, 2, 3, 4][..]);
    assert_eq!(v.remove(0), 1);
    assert_eq!(v.as_slice(), &[2, 3, 4][..]);
}

#[test]
fn truncate_longer_is_noop() {
    let mut v = from_slice(5, &[1, 2, 3]);
    v.truncate(7);
    assert_eq!(v.as_slice(), &[1, 2, 3][..]);
    v.truncate(1);
    assert_eq!(v.as_slice(), &[1][..]);
}

#[test]
fn write_takes_what_fits() {
    let mut v = FixedVec::<u8>::with_capacity(4);
    assert_eq!(v.write(&[1, 2, 3]), 3);
    assert_eq!(v.write(&[4, 5, 6]), 1);
    assert_eq!(v.write(&[7]), 0);
    assert_eq!(v.as_slice(), &[1, 2, 3, 4][..]);
}

#[test]
fn write_vectored_stops_at_partial() {
    let mut v = FixedVec::<u8>::with_capacity(5);
    let bufs: [&[u8]; 3] = [&[1, 2], &[3, 4, 5, 6], &[7]];
    assert_eq!(v.write_vectored(&bufs), 5);
    assert_eq!(v.as_slice(), &[1, 2, 3, 4, 5][..]);
}

#[test]
fn write_all_reports_write_zero() {
    let mut v = FixedVec::<u8>::with_capacity(3);
    assert!(v.write_all(&[1, 2]).is_ok());
    let err = v.write_all(&[3, 4]).unwrap_err();
    assert_eq!(err.kind(), std::io::ErrorKind::WriteZero);
    assert_eq!(v.as_slice(), &[1, 2, 3][..]);
}

#[test]
fn clone_keeps_elements_and_capacity() {
    let v = from_slice(6, &[4, 5]);
    let w = v.clone();
    assert_eq!(w.as_slice(), &[4, 5][..]);
    assert_eq!(w.capacity(), 6);
}

#[test]
fn parts_roundtrip() {
    let v = from_slice(6, &[1, 2, 3]);
    let (data, cap) = v.into_parts();
    assert_eq!(data, vec![1, 2, 3]);
    assert_eq!(cap, 6);
    let v = FixedVec::from_parts(data, cap).unwrap();
    assert_eq!(v.as_slice(), &[1, 2, 3][..]);
    assert_eq!(v.capacity(), 6);
    assert!(FixedVec::from_parts(vec![1u8, 2, 3], 2).is_none());
}

#[test]
fn as_mut_slice_writes_through() {
    let mut v = from_slice(4, &[1, 2, 3]);
    v.as_mut_slice()[1] = 9;
    assert_eq!(v.as_slice(), &[1, 9, 3][..]);
    assert_eq!(v.len(), 3);
}

#[test]
fn push_then_pop_restores() {
    let mut v = from_slice(4, &[1, 2]);
    assert!(v.push(5).is_ok());
    assert_eq!(v.pop(), Some(5));
    assert_eq!(v.as_slice(), &[1, 2][..]);
    assert_eq!(v.capacity(), 4);
}

#[test]
fn insert_then_remove_restores() {
    let mut v = from_slice(4, &[1, 2, 3]);
    v.insert(1, 7);
    assert_eq!(v.remove(1), 7);
    assert_eq!(v.as_slice(), &[1, 2, 3][..]);
}
