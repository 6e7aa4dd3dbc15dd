#![allow(non_camel_case_types)]

use vstd::prelude::*;

verus! {

/// The kernel's `__kernel_rwf_t`.
pub type __kernel_rwf_t = i32;

/// Marks the start of a trailing array of unknown length.
pub struct __IncompleteArrayField<T>(core::marker::PhantomData<T>, [T; 0]);

impl<T> __IncompleteArrayField<T> {
    #[inline]
    pub fn new() -> Self {
        __IncompleteArrayField(core::marker::PhantomData, [])
    }
}

/// Arguments of `openat2`.
#[derive(Copy, Clone)]
pub struct open_how {
    pub flags: u64,
    pub mode: u64,
    pub resolve: u64,
}

/// The fields of a submission queue entry. Fields that
/// the kernel overlays with several meanings hold the raw bits of whichever
/// meaning the operation uses.
#[derive(Copy, Clone)]
pub struct io_uring_sqe {
    pub opcode: u8,
    pub flags: u8,
    pub ioprio: u16,
    pub fd: i32,
    /// The file offset, or a second address.
    pub off_addr2: u64,
    /// The buffer address, or the input offset of a splice.
    pub addr_splice: u64,
    pub len: u32,
    /// The operation's flags (read/write, fsync, poll, message, timeout,
    /// accept, cancel, open, statx, fadvise or splice flags).
    pub op_flags: u32,
    pub user_data: u64,
    pub extra: sqe_extra,
}

/// The tail of a submission queue entry (the kernel's trailing padding
/// words are always zero and not kept here).
#[derive(Copy, Clone)]
pub struct sqe_extra {
    /// The buffer index, or the buffer group.
    pub buf_info: u16,
    pub personality: u16,
    pub splice_fd_in: i32,
}

/// An all-zero submission queue entry.
pub open spec fn zeroed_sqe() -> io_uring_sqe {
    io_uring_sqe {
        opcode: 0,
        flags: 0,
        ioprio: 0,
        fd: 0,
        off_addr2: 0,
        addr_splice: 0,
        len: 0,
        op_flags: 0,
        user_data: 0,
        extra: sqe_extra { buf_info: 0, personality: 0, splice_fd_in: 0 },
    }
}

impl io_uring_sqe {
    /// An all-zero submission queue entry.
    pub fn zeroed() -> (r: Self)
        ensures
            r == zeroed_sqe(),
    {
        io_uring_sqe {
            opcode: 0,
            flags: 0,
            ioprio: 0,
            fd: 0,
            off_addr2: 0,
            addr_splice: 0,
            len: 0,
            op_flags: 0,
            user_data: 0,
            extra: sqe_extra { buf_info: 0, personality: 0, splice_fd_in: 0 },
        }
    }
}

// io_uring_setup() flags
pub const IORING_SETUP_IOPOLL: u32 = 1;

pub const IORING_SETUP_SQPOLL: u32 = 2;

pub const IORING_SETUP_SQ_AFF: u32 = 4;

pub const IORING_SETUP_CQSIZE: u32 = 8;

pub const IORING_SETUP_CLAMP: u32 = 16;

pub const IORING_SETUP_ATTACH_WQ: u32 = 32;

// sqe->flags
pub const IOSQE_FIXED_FILE: u8 = 1;

pub const IOSQE_IO_DRAIN: u8 = 2;

pub const IOSQE_IO_LINK: u8 = 4;

pub const IOSQE_IO_HARDLINK: u8 = 8;

pub const IOSQE_ASYNC: u8 = 16;

pub const IOSQE_BUFFER_SELECT: u8 = 32;

// sqe->opcode, in sequence
pub const IORING_OP_NOP: u8 = 0;

pub const IORING_OP_READV: u8 = 1;

pub const IORING_OP_WRITEV: u8 = 2;

pub const IORING_OP_FSYNC: u8 = 3;

pub const IORING_OP_READ_FIXED: u8 = 4;

pub const IORING_OP_WRITE_FIXED: u8 = 5;

pub const IORING_OP_POLL_ADD: u8 = 6;

pub const IORING_OP_POLL_REMOVE: u8 = 7;

pub const IORING_OP_SYNC_FILE_RANGE: u8 = 8;

pub const IORING_OP_SENDMSG: u8 = 9;

pub const IORING_OP_RECVMSG: u8 = 10;

pub const IORING_OP_TIMEOUT: u8 = 11;

pub const IORING_OP_TIMEOUT_REMOVE: u8 = 12;

pub const IORING_OP_ACCEPT: u8 = 13;

pub const IORING_OP_ASYNC_CANCEL: u8 = 14;

pub const IORING_OP_LINK_TIMEOUT: u8 = 15;

pub const IORING_OP_CONNECT: u8 = 16;

pub const IORING_OP_FALLOCATE: u8 = 17;

pub const IORING_OP_OPENAT: u8 = 18;

pub const IORING_OP_CLOSE: u8 = 19;

pub const IORING_OP_FILES_UPDATE: u8 = 20;

pub const IORING_OP_STATX: u8 = 21;

pub const IORING_OP_READ: u8 = 22;

pub const IORING_OP_WRITE: u8 = 23;

pub const IORING_OP_FADVISE: u8 = 24;

pub const IORING_OP_MADVISE: u8 = 25;

pub const IORING_OP_SEND: u8 = 26;

pub const IORING_OP_RECV: u8 = 27;

pub const IORING_OP_OPENAT2: u8 = 28;

pub const IORING_OP_EPOLL_CTL: u8 = 29;

pub const IORING_OP_SPLICE: u8 = 30;

pub const IORING_OP_PROVIDE_BUFFERS: u8 = 31;

pub const IORING_OP_REMOVE_BUFFERS: u8 = 32;

pub const IORING_OP_TEE: u8 = 33;

pub const IORING_OP_LAST: u8 = 34;

// sqe->fsync_flags
pub const IORING_FSYNC_DATASYNC: u32 = 1;

// sqe->timeout_flags
pub const IORING_TIMEOUT_ABS: u32 = 1;

// sqe->splice_flags: the input file is a fixed file
pub const SPLICE_F_FD_IN_FIXED: u32 = 0x8000_0000;

/// A completion queue entry.
#[derive(Copy, Clone, Debug, Default)]
pub struct io_uring_cqe {
    pub user_data: u64,
    pub res: i32,
    pub flags: u32,
}

// cqe->flags
pub const IORING_CQE_F_BUFFER: u32 = 1;

pub const IORING_CQE_BUFFER_SHIFT: u32 = 16;

// Offsets to mmap for the rings and the submission entries
pub const IORING_OFF_SQ_RING: usize = 0;

pub const IORING_OFF_CQ_RING: usize = 0x8000000;

pub const IORING_OFF_SQES: usize = 0x10000000;

/// Offsets of the submission ring's fields, filled in by the kernel.
#[derive(Copy, Clone, Debug, Default)]
pub struct io_sqring_offsets {
    pub head: u32,
    pub tail: u32,
    pub ring_mask: u32,
    pub ring_entries: u32,
    pub flags: u32,
    pub dropped: u32,
    pub array: u32,
    pub resv1: u32,
    pub resv2: u64,
}

// sq_ring->flags
pub const IORING_SQ_NEED_WAKEUP: u32 = 1;

// cq_ring->flags
pub const IORING_CQ_EVENTFD_DISABLED: u32 = 1;

/// Offsets of the completion ring's fields, filled in by the kernel.
#[derive(Copy, Clone, Debug, Default)]
pub struct io_cqring_offsets {
    pub head: u32,
    pub tail: u32,
    pub ring_mask: u32,
    pub ring_entries: u32,
    pub overflow: u32,
    pub cqes: u32,
    pub flags: u32,
    pub resv1: u32,
    pub resv2: u64,
}

// io_uring_enter(2) flags
pub const IORING_ENTER_GETEVENTS: u32 = 1;

pub const IORING_ENTER_SQ_WAKEUP: u32 = 2;

/// Passed in for `io_uring_setup`; copied back with updated info on success.
#[derive(Copy, Clone, Debug, Default)]
pub struct io_uring_params {
    pub sq_entries: u32,
    pub cq_entries: u32,
    pub flags: u32,
    pub sq_thread_cpu: u32,
    pub sq_thread_idle: u32,
    pub features: u32,
    pub wq_fd: u32,
    pub resv: [u32; 3],
    pub sq_off: io_sqring_offsets,
    pub cq_off: io_cqring_offsets,
}

// io_uring_params->features flags
pub const IORING_FEAT_SINGLE_MMAP: u32 = 1;

pub const IORING_FEAT_NODROP: u32 = 2;

pub const IORING_FEAT_SUBMIT_STABLE: u32 = 4;

pub const IORING_FEAT_RW_CUR_POS: u32 = 8;

pub const IORING_FEAT_CUR_PERSONALITY: u32 = 16;

pub const IORING_FEAT_FAST_POLL: u32 = 32;

// io_uring_register(2) opcodes and arguments
pub const IORING_REGISTER_BUFFERS: u32 = 0;

pub const IORING_UNREGISTER_BUFFERS: u32 = 1;

pub const IORING_REGISTER_FILES: u32 = 2;

pub const IORING_UNREGISTER_FILES: u32 = 3;

pub const IORING_REGISTER_EVENTFD: u32 = 4;

pub const IORING_UNREGISTER_EVENTFD: u32 = 5;

pub const IORING_REGISTER_FILES_UPDATE: u32 = 6;

pub const IORING_REGISTER_EVENTFD_ASYNC: u32 = 7;

pub const IORING_REGISTER_PROBE: u32 = 8;

pub const IORING_REGISTER_PERSONALITY: u32 = 9;

pub const IORING_UNREGISTER_PERSONALITY: u32 = 10;

/// Argument of `IORING_REGISTER_FILES_UPDATE`.
#[derive(Copy, Clone, Debug, Default)]
pub struct io_uring_files_update {
    pub offset: u32,
    pub resv: u32,
    pub fds: u64,
}

pub const IO_URING_OP_SUPPORTED: u16 = 1;

/// One probed operation.
#[derive(Copy, Clone, Debug, Default)]
pub struct io_uring_probe_op {
    pub op: u8,
    pub resv: u8,
    pub flags: u16,
    pub resv2: u32,
}

/// The header of a probe result; the probed operations follow it.
pub struct io_uring_probe {
    pub last_op: u8,
    pub ops_len: u8,
    pub resv: u16,
    pub resv2: [u32; 3],
    pub ops: __IncompleteArrayField<io_uring_probe_op>,
}

/// The kernel's `timespec`.
#[derive(Copy, Clone, Debug)]
pub struct __kernel_timespec {
    pub tv_sec: i64,
    pub tv_nsec: i64,
}

} // verus!
