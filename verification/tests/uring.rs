use hamerkop::uring::sqe::free_sqes;
use hamerkop::uring::raw::IORING_OP_NOP;
use hamerkop::uring::ringbuf::RingBuf;
use hamerkop::uring::sqe::wrapping_dist;

#[test]
fn nop_is_0() {
    assert_eq!(IORING_OP_NOP, 0);
}

#[test]
fn ringbuf_iter() {
    let backing = [0, 1, 2, 3, 4, 5, 6, 7];

    let buf = RingBuf::new(&backing, 5, 6, 7);
    let collected = buf.iter().into_iter().cloned().collect::<Vec<_>>();

    assert_eq!(collected, [5, 6, 7, 0, 1, 2]);
}

#[test]
fn basic_wrapping_dist_tests() {
    assert_eq!(wrapping_dist(0, 0, 31), 32);
    assert_eq!(wrapping_dist(6, 5, 31), 1);
    assert_eq!(wrapping_dist(63, 31, 31), 32);
    assert_eq!(wrapping_dist(4, 6, 7), 6);
}

use hamerkop::uring::cqe::{completion_window, has_next, CompletionQueueEvent};
use hamerkop::uring::flags::{CompletionFlags, EnterFlags, SetupFlags, SubmissionFlags};
use hamerkop::uring::raw::{io_uring_cqe, io_uring_sqe, IORING_OP_LAST};
use hamerkop::uring::registrar::{op_name, FileUpdate, Probe, ProbeOp};
use hamerkop::uring::ringbuf::RingBufMut;
use hamerkop::uring::setup::{ring_sizes, UringParams};
use hamerkop::uring::sqe::{enter_flags, submit_plan, SubmissionQueueEvent};
use hamerkop::uring::sqe_types::{
    saturating_u32, Nop, Prepare, Read, Resultify, Splice, Target, Timeout, Write,
};

#[test]
fn ringbuf_get_wraps() {
    let backing = [10, 11, 12, 13];
    let buf = RingBuf::new(&backing, 3, 3, 3);
    assert_eq!(buf.len(), 3);
    assert_eq!(buf.get(0), Some(&13));
    assert_eq!(buf.get(1), Some(&10));
    assert_eq!(buf.get(2), Some(&11));
    assert_eq!(buf.get(3), None);
    let (a, b) = buf.as_slices();
    assert_eq!(a, &[13]);
    assert_eq!(b, &[10, 11]);
}

#[test]
fn ringbuf_mut_writes_through() {
    let mut backing = [0u8; 8];
    {
        let mut buf = RingBufMut::new(&mut backing, 6, 4, 7);
        *buf.get_mut(2).unwrap() = 5;
        assert!(buf.get_mut(4).is_none());
        assert_eq!(buf.as_ring_buf().iter().into_iter().cloned().collect::<Vec<_>>(), [0, 0, 5, 0]);
    }
    assert_eq!(backing[0], 5);
}

#[test]
fn wrapping_dist_is_forward_distance() {
    for (a, b) in [(3u32, 9u32), (9, 3), (0, 15), (15, 0)] {
        let d = wrapping_dist(a, b, 15);
        assert!(d >= 1 && d <= 16);
        assert_eq!(b.wrapping_add(d) & 15, a & 15);
    }
}

#[test]
fn completion_flags_buf_id() {
    let f = CompletionFlags::from_bits_retain((7 << 16) | 1);
    assert_eq!(f.buf_id(), Some(7));
    assert_eq!(CompletionFlags::from_bits_retain(7 << 16).buf_id(), None);
}

#[test]
fn flag_set_operations() {
    let a = SubmissionFlags::from_bits_truncate(SubmissionFlags::IO_LINK | 0x80);
    assert_eq!(a.bits(), SubmissionFlags::IO_LINK);
    let b = a.union(SubmissionFlags::from_bits_retain(SubmissionFlags::ASYNC));
    assert!(b.contains(a));
    assert_eq!(b.difference(a).bits(), SubmissionFlags::ASYNC);
    assert_eq!(SubmissionFlags::from_bits(0x80), None);
    assert!(SetupFlags::empty().is_empty());
    assert_eq!(EnterFlags::all().bits(), 3);
}

#[test]
fn cqe_accessors() {
    let cqe = CompletionQueueEvent::from_raw(io_uring_cqe { user_data: 9, res: 12, flags: 1 | (3 << 16) });
    assert_eq!(cqe.user_data(), 9);
    assert_eq!(cqe.result().unwrap(), 12);
    assert_eq!(cqe.result_raw(), 12);
    assert_eq!(cqe.buf_id(), Some(3));
    let err = CompletionQueueEvent::from_raw(io_uring_cqe { user_data: 1, res: -2, flags: 0 });
    assert_eq!(err.result().unwrap_err().raw_os_error(), Some(2));
    assert_eq!(err.buf_id(), None);
}

#[test]
fn completion_queue_window() {
    assert!(has_next(3, 5));
    assert!(!has_next(5, 5));
    assert_eq!(completion_window(9, 12, 7), (1, 3));
}

#[test]
fn sqe_field_setters() {
    let mut sqe = SubmissionQueueEvent::from_raw(io_uring_sqe::zeroed());
    sqe.set_user_data(77);
    sqe.set_flags(SubmissionFlags::from_bits_retain(SubmissionFlags::IO_LINK));
    sqe.add_flags(SubmissionFlags::from_bits_retain(SubmissionFlags::ASYNC));
    sqe.set_buf_group(4);
    assert_eq!(sqe.user_data(), 77);
    assert_eq!(sqe.flags().bits(), SubmissionFlags::IO_LINK | SubmissionFlags::ASYNC);
    assert_eq!(sqe.buf_group(), 4);
    sqe.clear();
    assert_eq!(sqe.user_data(), 0);
    assert_eq!(sqe.raw().opcode, 0);
}

#[test]
fn prepare_read_write() {
    let mut sqe = SubmissionQueueEvent::from_raw(io_uring_sqe::zeroed());
    sqe.set_user_data(5);
    sqe.prepare(Read::new(Target::Fixed(3), 0x1000, 64).offset(-1).rw_flags(2));
    let raw = sqe.into_raw();
    assert_eq!(raw.opcode, Read::OPCODE);
    assert_eq!(raw.fd, 3);
    assert_eq!(raw.flags, SubmissionFlags::FIXED_FILE);
    assert_eq!(raw.addr_splice, 0x1000);
    assert_eq!(raw.len, 64);
    assert_eq!(raw.off_addr2, u64::MAX);
    assert_eq!(raw.op_flags, 2);
    assert_eq!(raw.user_data, 0);

    let mut sqe = SubmissionQueueEvent::from_raw(io_uring_sqe::zeroed());
    Write::new(Target::Fd(4), 0x2000, 8).prep_sqe(&mut sqe);
    assert_eq!(sqe.raw().fd, 4);
    assert_eq!(sqe.raw().flags, 0);
}

#[test]
fn prepare_special_cases() {
    let mut sqe = SubmissionQueueEvent::from_raw(io_uring_sqe::zeroed());
    sqe.prepare(Nop::new());
    assert_eq!(sqe.raw().fd, -1);
    assert_eq!(sqe.raw().opcode, 0);
    sqe.prepare(Splice::new(Target::Fixed(1), 5, Target::Fd(2), 6, 7));
    assert_eq!(sqe.raw().fd, 2);
    assert_eq!(sqe.raw().flags, 0);
    assert_eq!(sqe.raw().extra.splice_fd_in, 1);
    assert_eq!(sqe.raw().op_flags, 0x8000_0000);
    assert_eq!(sqe.raw().addr_splice, 5);
    assert_eq!(sqe.raw().off_addr2, 6);
    sqe.prepare(Timeout::new(0x30).count(2));
    assert_eq!(sqe.raw().len, 1);
    assert_eq!(sqe.raw().off_addr2, 2);
    assert_eq!(saturating_u32(-5), 0);
    assert_eq!(saturating_u32(1 << 40), u32::MAX);
    assert_eq!(saturating_u32(9), 9);
}

#[test]
fn results_from_raw() {
    assert_eq!(<usize as Resultify>::from_result(7).unwrap(), 7);
    assert!(<() as Resultify>::from_result(-1).is_err());
    assert_eq!(<i32 as Resultify>::from_result(3).unwrap(), 3);
}

#[test]
fn enter_decisions() {
    let plain = SetupFlags::empty();
    let poll = SetupFlags::from_bits_retain(SetupFlags::SQPOLL);
    assert_eq!(enter_flags(plain, 0, 0), None);
    assert_eq!(enter_flags(plain, 0, 2).map(|f| f.bits()), Some(0));
    assert_eq!(enter_flags(poll, 0, 2), None);
    assert_eq!(enter_flags(poll, 1, 0).map(|f| f.bits()), Some(EnterFlags::SQ_WAKEUP));
    assert_eq!(submit_plan(plain, 0, 0, 0), None);
    assert_eq!(submit_plan(plain, 0, 0, 1).map(|f| f.bits()), Some(EnterFlags::GETEVENTS));
    assert_eq!(
        submit_plan(poll, 1, 0, 1).map(|f| f.bits()),
        Some(EnterFlags::GETEVENTS | EnterFlags::SQ_WAKEUP)
    );
}

#[test]
fn probe_and_names() {
    assert_eq!(op_name(0), "nop");
    assert_eq!(op_name(33), "tee");
    assert_eq!(op_name(IORING_OP_LAST), "unknown");
    let fds = [3, 4];
    let upd = FileUpdate::new(2, &fds);
    assert_eq!(upd.offset, 2);
    let op = ProbeOp::from_raw(hamerkop::uring::raw::io_uring_probe_op { op: 22, resv: 0, flags: 1, resv2: 0 });
    assert_eq!(op.op(), 22);
    assert!(op.flags().contains(hamerkop::uring::flags::ProbeOpFlags::from_bits_retain(1)));
    let header = hamerkop::uring::raw::io_uring_probe {
        last_op: 33,
        ops_len: 1,
        resv: 0,
        resv2: [0; 3],
        ops: hamerkop::uring::raw::__IncompleteArrayField::new(),
    };
    let probe = Probe::from_parts(header, vec![op, op]);
    assert_eq!(probe.last_op(), 33);
    assert_eq!(probe.ops().len(), 1);
}

#[test]
fn params_and_sizes() {
    let p = UringParams::with_flags(SetupFlags::from_bits_retain(SetupFlags::CQSIZE));
    let raw = p.to_raw();
    assert_eq!(raw.flags, SetupFlags::CQSIZE);
    let mut k = raw;
    k.sq_entries = 8;
    k.cq_entries = 16;
    k.sq_off.array = 100;
    k.cq_off.cqes = 40;
    assert_eq!(ring_sizes(&k), (132, 296));
    k.features = 1;
    assert_eq!(ring_sizes(&k), (296, 296));
}

#[test]
fn completion_window_across_counter_wrap() {
    assert_eq!(completion_window(u32::MAX - 1, 2, 7), (6, 4));
    assert_eq!(completion_window(5, 5, 7), (5, 0));
}

#[test]
fn flag_set_algebra() {
    let mut f = SubmissionFlags::from_bits_retain(SubmissionFlags::IO_LINK | SubmissionFlags::ASYNC);
    let link = SubmissionFlags::from_bits_retain(SubmissionFlags::IO_LINK);
    assert!(f.contains(link));
    f.remove(link);
    assert!(!f.contains(link));
    assert_eq!(f.bits(), SubmissionFlags::ASYNC);
    f.insert(link);
    assert!(f.contains(link));
    assert_eq!(f.union(link).bits(), f.bits());
    assert_eq!(f.complement().complement().bits(), f.bits() & SubmissionFlags::ALL);
    assert_eq!(SubmissionFlags::from_bits_truncate(0xff).bits(), SubmissionFlags::ALL);
    assert!(SubmissionFlags::from_bits(0x40).is_none());
}

#[test]
fn probe_ops_mut_covers_reported_ops() {
    let op = ProbeOp::from_raw(hamerkop::uring::raw::io_uring_probe_op { op: 22, resv: 0, flags: 1, resv2: 0 });
    let other = ProbeOp::from_raw(hamerkop::uring::raw::io_uring_probe_op { op: 5, resv: 0, flags: 0, resv2: 0 });
    let header = hamerkop::uring::raw::io_uring_probe {
        last_op: 33,
        ops_len: 1,
        resv: 0,
        resv2: [0; 3],
        ops: hamerkop::uring::raw::__IncompleteArrayField::new(),
    };
    let mut probe = Probe::from_parts(header, vec![op, op]);
    let ops = probe.ops_mut();
    assert_eq!(ops.len(), 1);
    ops[0] = other;
    assert_eq!(probe.ops()[0].op(), 5);
}

#[test]
fn free_sqes_counts_unqueued_slots() {
    assert_eq!(free_sqes(0, 8, 8), 0);
    assert_eq!(free_sqes(0, 0, 8), 8);
    assert_eq!(free_sqes(3, 5, 8), 6);
    assert_eq!(free_sqes(u32::MAX, 1, 8), 6);
}

#[test]
fn free_sqes_never_negative() {
    assert_eq!(free_sqes(0, 9, 8), 0);
}
