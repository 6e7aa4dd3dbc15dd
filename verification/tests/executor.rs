use hamerkop::executor::Scheduler;
use hamerkop::uring::flags::CompletionFlags;
use hamerkop::error::ProvideBuffersError;
use hamerkop::executor::{
    submit_wait_for, CleanupAction, CompletionEvent, DropOutcome, IOContextState,
    DEAD_TASK_SENTINEL, MAX_BUFFERS, NO_TASK_SENTINEL,
};
use hamerkop::fixedvec::FixedVec;
use hamerkop::uring::cqe::CompletionQueueEvent;
use hamerkop::uring::raw::io_uring_cqe;

fn cqe(id: usize, res: i32) -> CompletionQueueEvent {
    CompletionQueueEvent::from_raw(io_uring_cqe { user_data: id as u64, res, flags: 0 })
}

#[test]
fn completion_event_new() {
    let ce = CompletionEvent::new(4);
    assert_eq!(ce.task, 4);
    assert!(ce.cqe.is_none());
    assert!(ce.action == CleanupAction::NoAction);
}

#[test]
fn completions_wake_their_tasks() {
    let mut st: IOContextState<u8> = IOContextState::new(64);
    let a = st.register_completion();
    let b = st.register_completion();
    assert_eq!(st.poll_completion(a, 7).map(|c| c.user_data()), None);
    let woken = st.process_cqes(&[cqe(a, 3), cqe(b, 0), cqe(999, 0)]);
    assert_eq!(woken, vec![7]);
    assert!(st.is_complete(a));
    assert!(st.is_complete(b));
    assert_eq!(st.poll_completion(a, 7).map(|c| c.result_raw()), Some(3));
    assert!(st.drop_completion(a, false) == DropOutcome::Removed);
    assert!(!st.is_complete(a));
}

#[test]
fn dead_completion_cleans_up_buffer() {
    let mut st: IOContextState<u8> = IOContextState::new(64);
    let buf = st.insert_buffer(9).ok().unwrap();
    let c = st.register_completion();
    st.set_cleanup(c, CleanupAction::DeleteBufferOnError(buf));
    assert!(st.drop_completion(c, false) == DropOutcome::Abandoned);
    let woken = st.process_cqes(&[cqe(c, -5)]);
    assert!(woken.is_empty());
    assert_eq!(st.buffer_count(), 0);
    assert!(!st.is_complete(c));
    assert_eq!(st.remove_buffer(buf), None);
}

#[test]
fn must_wait_asks_for_cancel() {
    let mut st: IOContextState<u8> = IOContextState::new(64);
    let c = st.register_completion();
    assert!(st.drop_completion(c, true) == DropOutcome::MustCancel);
    let woken = st.process_cqes(&[cqe(c, 0)]);
    assert!(woken.is_empty());
    assert!(st.is_complete(c));
}

#[test]
fn queued_and_wait_decisions() {
    let mut st: IOContextState<u8> = IOContextState::new(8);
    assert!(!st.has_queued());
    st.add_queued(2);
    assert!(st.has_queued());
    st.clear_queued();
    assert!(!st.has_queued());
    assert_eq!(st.buffer_size(), 8);
    assert_eq!(submit_wait_for(false, true, false), Some(1));
    assert_eq!(submit_wait_for(true, true, true), Some(0));
    assert_eq!(submit_wait_for(true, false, false), Some(0));
    assert_eq!(submit_wait_for(false, false, true), None);
    assert!(NO_TASK_SENTINEL != DEAD_TASK_SENTINEL);
}

#[test]
fn provide_buffers_error_keeps_buffer() {
    let mut buf = FixedVec::with_capacity(4);
    buf.extend_from_slice(&[1u8, 2]);
    let mut e = ProvideBuffersError::new(std::io::Error::new(std::io::ErrorKind::Other, "x"), buf);
    let taken = e.take_buffer();
    assert_eq!(taken.as_slice(), &[1, 2][..]);
    assert_eq!(e.into_buffer().capacity(), 0);
    let e2 = ProvideBuffersError::new(std::io::Error::new(std::io::ErrorKind::Other, "y"), FixedVec::with_capacity(1));
    assert_eq!(e2.into_error().kind(), std::io::ErrorKind::Other);
}

#[test]
fn scheduler_spawns_queues_and_finishes() {
    let mut s: Scheduler<&str> = Scheduler::new();
    assert!(s.is_empty());
    assert!(s.runqueue_is_empty());
    let a = s.spawn("a");
    let b = s.spawn("b");
    assert_ne!(a, b);
    assert_eq!(s.task_count(), 2);
    let mut woken = vec![b, b, a];
    s.queue_woken(&mut woken);
    assert!(woken.is_empty());
    let ids = s.take_runqueue();
    assert!(s.runqueue_is_empty());
    assert!(ids.contains(&a) && ids.contains(&b));
    assert!(ids.windows(2).all(|w| w[0] != w[1]));
    assert_eq!(s.task_mut(a).map(|t| *t), Some("a"));
    assert_eq!(s.finish(a), Some("a"));
    assert!(s.task_mut(a).is_none());
    assert_eq!(s.finish(a), None);
    assert_eq!(s.task_count(), 1);
    // The freed id is handed out again by the next spawn.
    assert_eq!(s.spawn("c"), a);
}

#[test]
fn staged_buffer_comes_back_whole() {
    let mut st: IOContextState<FixedVec<u8>> = IOContextState::new(4);
    let mut buf = FixedVec::with_capacity(4);
    buf.extend_from_slice(&[7u8, 8, 9]);
    let id = match st.stage_buffer(buf) {
        Ok(id) => id,
        Err(_) => panic!("pool has room"),
    };
    assert!(st.has_buffer(id));
    assert_eq!(st.buffer_count(), 1);
    let back = st.remove_buffer(id).unwrap();
    assert_eq!(back.as_slice(), &[7, 8, 9][..]);
    assert_eq!(back.capacity(), 4);
    assert!(!st.has_buffer(id));
}

#[test]
fn take_read_buffer_follows_the_completion() {
    let mut st: IOContextState<FixedVec<u8>> = IOContextState::new(8);
    let id = st.insert_buffer(FixedVec::with_capacity(8)).ok().unwrap();
    let flags = ((id as u32) << 16) | CompletionFlags::BUFFER;
    let ok = CompletionQueueEvent::from_raw(io_uring_cqe { user_data: 0, res: 5, flags });
    let (buf, n) = st.take_read_buffer(ok).unwrap();
    assert_eq!(n, 5);
    assert_eq!(buf.capacity(), 8);
    assert!(!st.has_buffer(id));

    let id2 = st.insert_buffer(FixedVec::with_capacity(8)).ok().unwrap();
    let failed = CompletionQueueEvent::from_raw(io_uring_cqe { user_data: 0, res: -11, flags: 0 });
    let err = st.take_read_buffer(failed).err().unwrap();
    assert_eq!(err.raw_os_error(), Some(11));
    assert!(st.has_buffer(id2));
}

#[test]
fn completion_tracking_queries() {
    let mut st: IOContextState<u8> = IOContextState::new(8);
    let c = st.register_completion();
    assert!(st.has_completion(c));
    assert!(!st.has_completion(c + 1));
    st.process_cqes(&[cqe(c, 1)]);
    assert!(st.drop_completion(c, true) == DropOutcome::Removed);
    assert!(!st.has_completion(c));
}

#[test]
fn unknown_completion_changes_nothing() {
    let mut st: IOContextState<u8> = IOContextState::new(8);
    let c = st.register_completion();
    let woken = st.process_cqes(&[cqe(c + 100, 0)]);
    assert!(woken.is_empty());
    assert!(st.has_completion(c));
    assert!(!st.is_complete(c));
}

#[test]
fn unstaged_buffer_comes_back_empty_and_pool_counts() {
    let mut st: IOContextState<FixedVec<u8>> = IOContextState::new(4);
    let mut buf = FixedVec::with_capacity(4);
    buf.extend_from_slice(&[1u8, 2]);
    let id = st.stage_buffer(buf).ok().unwrap();
    assert_eq!(st.buffer_count(), 1);
    let back = st.unstage_buffer(id).unwrap();
    assert!(back.is_empty());
    assert_eq!(back.capacity(), 4);
    assert_eq!(st.buffer_count(), 0);
    assert!(st.unstage_buffer(id).is_none());
}

#[test]
fn stage_then_read_returns_the_staged_buffer() {
    let mut st: IOContextState<FixedVec<u8>> = IOContextState::new(4);
    let mut last = 0usize;
    for i in 0..1500usize {
        let mut buf = FixedVec::with_capacity(4);
        buf.extend_from_slice(&[(i % 251) as u8]);
        last = st.stage_buffer(buf).ok().unwrap();
    }
    assert_eq!(last, 1499);
    // The kernel is handed the id as 16 bits and reports it back the same way.
    let kernel_id = last as u16;
    let flags = ((kernel_id as u32) << 16) | CompletionFlags::BUFFER;
    let done = CompletionQueueEvent::from_raw(io_uring_cqe { user_data: 0, res: 1, flags });
    let (buf, n) = st.take_read_buffer(done).unwrap();
    assert_eq!(n, 1);
    assert_eq!(buf.as_slice(), &[(1499 % 251) as u8][..]);
    assert_eq!(st.buffer_count(), 1499);
    assert!(!st.has_buffer(last));
}

#[test]
fn buffer_ids_fit_in_sixteen_bits() {
    let mut st: IOContextState<FixedVec<u8>> = IOContextState::new(1);
    let mut largest = 0usize;
    loop {
        match st.stage_buffer(FixedVec::with_capacity(1)) {
            Ok(id) => {
                assert!(id <= u16::MAX as usize);
                if id > largest {
                    largest = id;
                }
            }
            Err(e) => {
                assert_eq!(e.into_buffer().capacity(), 1);
                break;
            }
        }
    }
    assert_eq!(st.buffer_count(), MAX_BUFFERS);
    assert_eq!(largest, MAX_BUFFERS - 1);
}
