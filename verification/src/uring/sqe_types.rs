use vstd::prelude::*;
use crate::uring::flags::{SubmissionFlags, TimeoutFlags};
use crate::uring::raw::{IORING_OP_ACCEPT, IORING_OP_ASYNC_CANCEL, IORING_OP_CLOSE, IORING_OP_CONNECT, IORING_OP_EPOLL_CTL, IORING_OP_FADVISE, IORING_OP_FALLOCATE, IORING_OP_FILES_UPDATE, IORING_OP_LINK_TIMEOUT, IORING_OP_MADVISE, IORING_OP_NOP, IORING_OP_OPENAT, IORING_OP_OPENAT2, IORING_OP_POLL_ADD, IORING_OP_POLL_REMOVE, IORING_OP_PROVIDE_BUFFERS, IORING_OP_READ, IORING_OP_READV, IORING_OP_READ_FIXED, IORING_OP_RECV, IORING_OP_RECVMSG, IORING_OP_REMOVE_BUFFERS, IORING_OP_SEND, IORING_OP_SENDMSG, IORING_OP_SPLICE, IORING_OP_STATX, IORING_OP_SYNC_FILE_RANGE, IORING_OP_TEE, IORING_OP_TIMEOUT, IORING_OP_TIMEOUT_REMOVE, IORING_OP_WRITE, IORING_OP_WRITEV, IORING_OP_WRITE_FIXED, io_uring_sqe, sqe_extra, __kernel_rwf_t, __kernel_timespec, SPLICE_F_FD_IN_FIXED};
use crate::uring::sqe::SubmissionQueueEvent;

verus! {

/// A file descriptor.
pub type RawFd = i32;

/// Read/write flags.
pub type RwFlags = __kernel_rwf_t;

/// The kernel's `timespec`.
pub type Timespec = __kernel_timespec;

/// Size of `open_how`: three 64-bit words.
pub const OPEN_HOW_SIZE: u32 = 24;

/// An operation that fills in a submission queue entry.
pub trait Prepare: Sized {
    /// How the result of the completed operation is read.
    type Return: Resultify;

    /// The entry this operation fills in.
    spec fn spec_sqe(&self) -> io_uring_sqe;

    /// The kernel's opcode for this kind of operation.
    spec fn spec_opcode() -> u8;

    /// The entry an operation fills in carries its kind's own opcode.
    proof fn lemma_opcode(&self)
        ensures
            self.spec_sqe().opcode == Self::spec_opcode(),
    ;

    fn prep_sqe(self, sqe: &mut SubmissionQueueEvent)
        ensures
            final(sqe)@ == self.spec_sqe(),
    ;
}

/// How the raw result of a completed operation is read.
pub trait Resultify: Sized {
    /// The value read from a non-negative result.
    spec fn spec_from(result: i32) -> Self;

    /// The value for a non-negative `result`; for a negative one the
    /// error left in `errno`.
    fn from_result(result: i32) -> (r: Result<Self, std::io::Error>)
        ensures
            r is Ok <==> result >= 0,
            r matches Ok(v) ==> v == Self::spec_from(result),
    ;
}

impl Resultify for () {
    open spec fn spec_from(result: i32) -> () {
        ()
    }

    fn from_result(result: i32) -> (r: Result<(), std::io::Error>) {
        if result < 0 {
            Err(crate::error::last_os_error())
        } else {
            Ok(())
        }
    }
}

impl Resultify for usize {
    open spec fn spec_from(result: i32) -> usize {
        result as usize
    }

    fn from_result(result: i32) -> (r: Result<usize, std::io::Error>) {
        if result < 0 {
            Err(crate::error::last_os_error())
        } else {
            Ok(result as usize)
        }
    }
}

impl Resultify for i32 {
    open spec fn spec_from(result: i32) -> i32 {
        result
    }

    fn from_result(result: i32) -> (r: Result<i32, std::io::Error>) {
        if result < 0 {
            Err(crate::error::last_os_error())
        } else {
            Ok(result)
        }
    }
}

/// The file an operation acts on: a plain descriptor or an index into the
/// registered files.
#[derive(Copy, Clone, Debug)]
pub enum Target {
    Fd(RawFd),
    Fixed(u32),
}

impl Target {
    /// The value stored in the entry's descriptor field.
    pub open spec fn spec_raw(self) -> i32 {
        match self {
            Target::Fd(fd) => fd,
            Target::Fixed(fixed) => fixed as i32,
        }
    }

    pub fn is_fixed(&self) -> (r: bool)
        ensures
            r == (*self is Fixed),
    {
        match self {
            Target::Fixed(_) => true,
            _ => false,
        }
    }

    pub fn into_raw(self) -> (r: i32)
        ensures
            r == self.spec_raw(),
    {
        match self {
            Target::Fd(fd) => fd,
            Target::Fixed(fixed) => fixed as i32,
        }
    }
}

/// The entry flags an operation on `t` needs: `FIXED_FILE` for a
/// registered file.
pub open spec fn spec_fixed_file(t: Target) -> u8 {
    if t is Fixed {
        SubmissionFlags::FIXED_FILE
    } else {
        0
    }
}

fn fixed_file(t: &Target) -> (r: u8)
    ensures
        r == spec_fixed_file(*t),
{
    if t.is_fixed() {
        SubmissionFlags::FIXED_FILE
    } else {
        0
    }
}

/// The splice flags for an input `fd_in`: `SPLICE_F_FD_IN_FIXED` is added
/// for a registered file.
pub open spec fn spec_splice_flags(flags: u32, fd_in: Target) -> u32 {
    if fd_in is Fixed {
        flags | SPLICE_F_FD_IN_FIXED
    } else {
        flags
    }
}

fn splice_flags(flags: u32, fd_in: &Target) -> (r: u32)
    ensures
        r == spec_splice_flags(flags, *fd_in),
{
    if fd_in.is_fixed() {
        flags | SPLICE_F_FD_IN_FIXED
    } else {
        flags
    }
}

/// `x` clamped into the range of `u32`.
pub open spec fn spec_saturating_u32(x: i64) -> u32 {
    if x < 0 {
        0
    } else if x > u32::MAX {
        u32::MAX
    } else {
        x as u32
    }
}

/// `x` clamped into the range of `u32`.
pub fn saturating_u32(x: i64) -> (r: u32)
    ensures
        r == spec_saturating_u32(x),
{
    if x < 0 {
        0
    } else if x > u32::MAX as i64 {
        u32::MAX
    } else {
        x as u32
    }
}

/// Do not perform any I/O.
///
/// This may be useful for testing the performance of the `io_uring`
/// implementation itself.
#[derive(Copy, Clone, Debug)]
pub struct Nop {
}

impl Nop {
    pub const OPCODE: u8 = IORING_OP_NOP;

    #[inline]
    pub fn new() -> (r: Self)
    {
        Self {  }
    }

}

impl Prepare for Nop {
    type Return = ();

    open spec fn spec_opcode() -> u8 {
        Self::OPCODE
    }

    proof fn lemma_opcode(&self) {
    }

    open spec fn spec_sqe(&self) -> io_uring_sqe {
        io_uring_sqe {
            opcode: Self::OPCODE,
            flags: 0u8,
            ioprio: 0u16,
            fd: -1i32,
            off_addr2: 0u64,
            addr_splice: 0u64,
            len: 0u32,
            op_flags: 0u32,
            user_data: 0,
            extra: sqe_extra { buf_info: 0u16, personality: 0, splice_fd_in: 0i32 },
        }
    }

    fn prep_sqe(self, sqe: &mut SubmissionQueueEvent) {
        sqe.set_raw(io_uring_sqe {
            opcode: Self::OPCODE,
            flags: 0u8,
            ioprio: 0u16,
            fd: -1i32,
            off_addr2: 0u64,
            addr_splice: 0u64,
            len: 0u32,
            op_flags: 0u32,
            user_data: 0,
            extra: sqe_extra { buf_info: 0u16, personality: 0, splice_fd_in: 0i32 },
        });
    }
}

impl Default for Nop {
    fn default() -> (r: Self)
        ensures
            r == (Nop {}),
    {
        Self::new()
    }
}

/// Implements a vectored read operation, equivalent to `preadv2(2)`.
#[derive(Copy, Clone, Debug)]
pub struct ReadVectored {
    pub fd: Target,
    pub iovec: u64,
    pub len: u32,
    pub ioprio: u16,
    pub offset: i64,
    pub rw_flags: RwFlags,
}

impl ReadVectored {
    pub const OPCODE: u8 = IORING_OP_READV;

    #[inline]
    pub fn new(fd: Target, iovec: u64, len: u32) -> (r: Self)
        ensures
            r.fd == fd,
            r.iovec == iovec,
            r.len == len,
            r.ioprio == 0,
            r.offset == 0,
            r.rw_flags == 0,
    {
        Self { fd, iovec, len, ioprio: 0, offset: 0, rw_flags: 0 }
    }

    #[inline]
    pub fn ioprio(self, value: u16) -> (r: Self)
        ensures
            r == (Self { ioprio: value, ..self }),
    {
        Self { ioprio: value, ..self }
    }

    #[inline]
    pub fn offset(self, value: i64) -> (r: Self)
        ensures
            r == (Self { offset: value, ..self }),
    {
        Self { offset: value, ..self }
    }

    #[inline]
    pub fn rw_flags(self, value: RwFlags) -> (r: Self)
        ensures
            r == (Self { rw_flags: value, ..self }),
    {
        Self { rw_flags: value, ..self }
    }

}

impl Prepare for ReadVectored {
    type Return = usize;

    open spec fn spec_opcode() -> u8 {
        Self::OPCODE
    }

    proof fn lemma_opcode(&self) {
    }

    open spec fn spec_sqe(&self) -> io_uring_sqe {
        io_uring_sqe {
            opcode: Self::OPCODE,
            flags: spec_fixed_file(self.fd),
            ioprio: self.ioprio,
            fd: self.fd.spec_raw(),
            off_addr2: self.offset as u64,
            addr_splice: self.iovec,
            len: self.len,
            op_flags: 0u32,
            user_data: 0,
            extra: sqe_extra { buf_info: 0u16, personality: 0, splice_fd_in: 0i32 },
        }
    }

    fn prep_sqe(self, sqe: &mut SubmissionQueueEvent) {
        sqe.set_raw(io_uring_sqe {
            opcode: Self::OPCODE,
            flags: fixed_file(&self.fd),
            ioprio: self.ioprio,
            fd: self.fd.into_raw(),
            off_addr2: self.offset as u64,
            addr_splice: self.iovec,
            len: self.len,
            op_flags: 0u32,
            user_data: 0,
            extra: sqe_extra { buf_info: 0u16, personality: 0, splice_fd_in: 0i32 },
        });
    }
}

/// Implements a vectored write operation, equivalent to `pwritev2(2)`.
#[derive(Copy, Clone, Debug)]
pub struct WriteVectored {
    pub fd: Target,
    pub iovec: u64,
    pub len: u32,
    pub ioprio: u16,
    pub offset: i64,
    pub rw_flags: RwFlags,
}

impl WriteVectored {
    pub const OPCODE: u8 = IORING_OP_WRITEV;

    #[inline]
    pub fn new(fd: Target, iovec: u64, len: u32) -> (r: Self)
        ensures
            r.fd == fd,
            r.iovec == iovec,
            r.len == len,
            r.ioprio == 0,
            r.offset == 0,
            r.rw_flags == 0,
    {
        Self { fd, iovec, len, ioprio: 0, offset: 0, rw_flags: 0 }
    }

    #[inline]
    pub fn ioprio(self, value: u16) -> (r: Self)
        ensures
            r == (Self { ioprio: value, ..self }),
    {
        Self { ioprio: value, ..self }
    }

    #[inline]
    pub fn offset(self, value: i64) -> (r: Self)
        ensures
            r == (Self { offset: value, ..self }),
    {
        Self { offset: value, ..self }
    }

    #[inline]
    pub fn rw_flags(self, value: RwFlags) -> (r: Self)
        ensures
            r == (Self { rw_flags: value, ..self }),
    {
        Self { rw_flags: value, ..self }
    }

}

impl Prepare for WriteVectored {
    type Return = usize;

    open spec fn spec_opcode() -> u8 {
        Self::OPCODE
    }

    proof fn lemma_opcode(&self) {
    }

    open spec fn spec_sqe(&self) -> io_uring_sqe {
        io_uring_sqe {
            opcode: Self::OPCODE,
            flags: spec_fixed_file(self.fd),
            ioprio: self.ioprio,
            fd: self.fd.spec_raw(),
            off_addr2: self.offset as u64,
            addr_splice: self.iovec,
            len: self.len,
            op_flags: 0u32,
            user_data: 0,
            extra: sqe_extra { buf_info: 0u16, personality: 0, splice_fd_in: 0i32 },
        }
    }

    fn prep_sqe(self, sqe: &mut SubmissionQueueEvent) {
        sqe.set_raw(io_uring_sqe {
            opcode: Self::OPCODE,
            flags: fixed_file(&self.fd),
            ioprio: self.ioprio,
            fd: self.fd.into_raw(),
            off_addr2: self.offset as u64,
            addr_splice: self.iovec,
            len: self.len,
            op_flags: 0u32,
            user_data: 0,
            extra: sqe_extra { buf_info: 0u16, personality: 0, splice_fd_in: 0i32 },
        });
    }
}

/// Read to pre-mapped buffers.
///
/// Buffers must be setup with the `IoUring` instance beforehand.
#[derive(Copy, Clone, Debug)]
pub struct ReadFixed {
    pub fd: Target,
    pub buf: u64,
    pub len: u32,
    pub buf_index: u16,
    pub offset: i64,
    pub ioprio: u16,
    pub rw_flags: RwFlags,
}

impl ReadFixed {
    pub const OPCODE: u8 = IORING_OP_READ_FIXED;

    #[inline]
    pub fn new(fd: Target, buf: u64, len: u32, buf_index: u16) -> (r: Self)
        ensures
            r.fd == fd,
            r.buf == buf,
            r.len == len,
            r.buf_index == buf_index,
            r.offset == 0,
            r.ioprio == 0,
            r.rw_flags == 0,
    {
        Self { fd, buf, len, buf_index, offset: 0, ioprio: 0, rw_flags: 0 }
    }

    #[inline]
    pub fn offset(self, value: i64) -> (r: Self)
        ensures
            r == (Self { offset: value, ..self }),
    {
        Self { offset: value, ..self }
    }

    #[inline]
    pub fn ioprio(self, value: u16) -> (r: Self)
        ensures
            r == (Self { ioprio: value, ..self }),
    {
        Self { ioprio: value, ..self }
    }

    #[inline]
    pub fn rw_flags(self, value: RwFlags) -> (r: Self)
        ensures
            r == (Self { rw_flags: value, ..self }),
    {
        Self { rw_flags: value, ..self }
    }

}

impl Prepare for ReadFixed {
    type Return = usize;

    open spec fn spec_opcode() -> u8 {
        Self::OPCODE
    }

    proof fn lemma_opcode(&self) {
    }

    open spec fn spec_sqe(&self) -> io_uring_sqe {
        io_uring_sqe {
            opcode: Self::OPCODE,
            flags: spec_fixed_file(self.fd),
            ioprio: self.ioprio,
            fd: self.fd.spec_raw(),
            off_addr2: self.offset as u64,
            addr_splice: self.buf,
            len: self.len,
            op_flags: 0u32,
            user_data: 0,
            extra: sqe_extra { buf_info: self.buf_index, personality: 0, splice_fd_in: 0i32 },
        }
    }

    fn prep_sqe(self, sqe: &mut SubmissionQueueEvent) {
        sqe.set_raw(io_uring_sqe {
            opcode: Self::OPCODE,
            flags: fixed_file(&self.fd),
            ioprio: self.ioprio,
            fd: self.fd.into_raw(),
            off_addr2: self.offset as u64,
            addr_splice: self.buf,
            len: self.len,
            op_flags: 0u32,
            user_data: 0,
            extra: sqe_extra { buf_info: self.buf_index, personality: 0, splice_fd_in: 0i32 },
        });
    }
}

/// Write from pre-mapped buffers.
///
/// Buffers must have been setup with the `IoUring` instance beforehand.
#[derive(Copy, Clone, Debug)]
pub struct WriteFixed {
    pub fd: Target,
    pub buf: u64,
    pub len: u32,
    pub buf_index: u16,
    pub ioprio: u16,
    pub offset: i64,
    pub rw_flags: RwFlags,
}

impl WriteFixed {
    pub const OPCODE: u8 = IORING_OP_WRITE_FIXED;

    #[inline]
    pub fn new(fd: Target, buf: u64, len: u32, buf_index: u16) -> (r: Self)
        ensures
            r.fd == fd,
            r.buf == buf,
            r.len == len,
            r.buf_index == buf_index,
            r.ioprio == 0,
            r.offset == 0,
            r.rw_flags == 0,
    {
        Self { fd, buf, len, buf_index, ioprio: 0, offset: 0, rw_flags: 0 }
    }

    #[inline]
    pub fn ioprio(self, value: u16) -> (r: Self)
        ensures
            r == (Self { ioprio: value, ..self }),
    {
        Self { ioprio: value, ..self }
    }

    #[inline]
    pub fn offset(self, value: i64) -> (r: Self)
        ensures
            r == (Self { offset: value, ..self }),
    {
        Self { offset: value, ..self }
    }

    #[inline]
    pub fn rw_flags(self, value: RwFlags) -> (r: Self)
        ensures
            r == (Self { rw_flags: value, ..self }),
    {
        Self { rw_flags: value, ..self }
    }

}

impl Prepare for WriteFixed {
    type Return = usize;

    open spec fn spec_opcode() -> u8 {
        Self::OPCODE
    }

    proof fn lemma_opcode(&self) {
    }

    open spec fn spec_sqe(&self) -> io_uring_sqe {
        io_uring_sqe {
            opcode: Self::OPCODE,
            flags: spec_fixed_file(self.fd),
            ioprio: self.ioprio,
            fd: self.fd.spec_raw(),
            off_addr2: self.offset as u64,
            addr_splice: self.buf,
            len: self.len,
            op_flags: 0u32,
            user_data: 0,
            extra: sqe_extra { buf_info: self.buf_index, personality: 0, splice_fd_in: 0i32 },
        }
    }

    fn prep_sqe(self, sqe: &mut SubmissionQueueEvent) {
        sqe.set_raw(io_uring_sqe {
            opcode: Self::OPCODE,
            flags: fixed_file(&self.fd),
            ioprio: self.ioprio,
            fd: self.fd.into_raw(),
            off_addr2: self.offset as u64,
            addr_splice: self.buf,
            len: self.len,
            op_flags: 0u32,
            user_data: 0,
            extra: sqe_extra { buf_info: self.buf_index, personality: 0, splice_fd_in: 0i32 },
        });
    }
}

/// Poll the specified fd.
///
/// Unlike poll or epoll without `EPOLLONESHOT`, this interface always works
/// in one shot mode. That is, once the poll operation is completed, it will
/// have to be resubmitted. The bits that may be set in `poll_events` are
/// defined in `<poll.h>` and documented in `poll(2)`.
#[derive(Copy, Clone, Debug)]
pub struct PollAdd {
    pub fd: Target,
    pub poll_events: u16,
}

impl PollAdd {
    pub const OPCODE: u8 = IORING_OP_POLL_ADD;

    #[inline]
    pub fn new(fd: Target, poll_events: u16) -> (r: Self)
        ensures
            r.fd == fd,
            r.poll_events == poll_events,
    {
        Self { fd, poll_events }
    }

}

impl Prepare for PollAdd {
    type Return = ();

    open spec fn spec_opcode() -> u8 {
        Self::OPCODE
    }

    proof fn lemma_opcode(&self) {
    }

    open spec fn spec_sqe(&self) -> io_uring_sqe {
        io_uring_sqe {
            opcode: Self::OPCODE,
            flags: spec_fixed_file(self.fd),
            ioprio: 0u16,
            fd: self.fd.spec_raw(),
            off_addr2: 0u64,
            addr_splice: 0u64,
            len: 0u32,
            op_flags: self.poll_events as u32,
            user_data: 0,
            extra: sqe_extra { buf_info: 0u16, personality: 0, splice_fd_in: 0i32 },
        }
    }

    fn prep_sqe(self, sqe: &mut SubmissionQueueEvent) {
        sqe.set_raw(io_uring_sqe {
            opcode: Self::OPCODE,
            flags: fixed_file(&self.fd),
            ioprio: 0u16,
            fd: self.fd.into_raw(),
            off_addr2: 0u64,
            addr_splice: 0u64,
            len: 0u32,
            op_flags: self.poll_events as u32,
            user_data: 0,
            extra: sqe_extra { buf_info: 0u16, personality: 0, splice_fd_in: 0i32 },
        });
    }
}

/// Remove an existing poll request.
///
/// If not found, then the result will be `0`. Otherwise the CQE will error
/// with `ENOENT`.
#[derive(Copy, Clone, Debug)]
pub struct PollRemove {
    pub user_data: u64,
}

impl PollRemove {
    pub const OPCODE: u8 = IORING_OP_POLL_REMOVE;

    #[inline]
    pub fn new(user_data: u64) -> (r: Self)
        ensures
            r.user_data == user_data,
    {
        Self { user_data }
    }

}

impl Prepare for PollRemove {
    type Return = ();

    open spec fn spec_opcode() -> u8 {
        Self::OPCODE
    }

    proof fn lemma_opcode(&self) {
    }

    open spec fn spec_sqe(&self) -> io_uring_sqe {
        io_uring_sqe {
            opcode: Self::OPCODE,
            flags: 0u8,
            ioprio: 0u16,
            fd: -1i32,
            off_addr2: 0u64,
            addr_splice: self.user_data,
            len: 0u32,
            op_flags: 0u32,
            user_data: 0,
            extra: sqe_extra { buf_info: 0u16, personality: 0, splice_fd_in: 0i32 },
        }
    }

    fn prep_sqe(self, sqe: &mut SubmissionQueueEvent) {
        sqe.set_raw(io_uring_sqe {
            opcode: Self::OPCODE,
            flags: 0u8,
            ioprio: 0u16,
            fd: -1i32,
            off_addr2: 0u64,
            addr_splice: self.user_data,
            len: 0u32,
            op_flags: 0u32,
            user_data: 0,
            extra: sqe_extra { buf_info: 0u16, personality: 0, splice_fd_in: 0i32 },
        });
    }
}

/// Issue the equivalent of a `sync_file_range(2)` on the file descriptor.
#[derive(Copy, Clone, Debug)]
pub struct SyncFileRange {
    pub fd: Target,
    pub len: u32,
    pub offset: i64,
    pub flags: u32,
}

impl SyncFileRange {
    pub const OPCODE: u8 = IORING_OP_SYNC_FILE_RANGE;

    #[inline]
    pub fn new(fd: Target, len: u32) -> (r: Self)
        ensures
            r.fd == fd,
            r.len == len,
            r.offset == 0,
            r.flags == 0,
    {
        Self { fd, len, offset: 0, flags: 0 }
    }

    #[inline]
    pub fn offset(self, value: i64) -> (r: Self)
        ensures
            r == (Self { offset: value, ..self }),
    {
        Self { offset: value, ..self }
    }

    #[inline]
    pub fn flags(self, value: u32) -> (r: Self)
        ensures
            r == (Self { flags: value, ..self }),
    {
        Self { flags: value, ..self }
    }

}

impl Prepare for SyncFileRange {
    type Return = ();

    open spec fn spec_opcode() -> u8 {
        Self::OPCODE
    }

    proof fn lemma_opcode(&self) {
    }

    open spec fn spec_sqe(&self) -> io_uring_sqe {
        io_uring_sqe {
            opcode: Self::OPCODE,
            flags: spec_fixed_file(self.fd),
            ioprio: 0u16,
            fd: self.fd.spec_raw(),
            off_addr2: self.offset as u64,
            addr_splice: 0u64,
            len: self.len,
            op_flags: self.flags,
            user_data: 0,
            extra: sqe_extra { buf_info: 0u16, personality: 0, splice_fd_in: 0i32 },
        }
    }

    fn prep_sqe(self, sqe: &mut SubmissionQueueEvent) {
        sqe.set_raw(io_uring_sqe {
            opcode: Self::OPCODE,
            flags: fixed_file(&self.fd),
            ioprio: 0u16,
            fd: self.fd.into_raw(),
            off_addr2: self.offset as u64,
            addr_splice: 0u64,
            len: self.len,
            op_flags: self.flags,
            user_data: 0,
            extra: sqe_extra { buf_info: 0u16, personality: 0, splice_fd_in: 0i32 },
        });
    }
}

/// Issue the equivalent of a `sendmsg(2)` system call.
#[derive(Copy, Clone, Debug)]
pub struct SendMsg {
    pub fd: Target,
    pub msg: u64,
    pub ioprio: u16,
    pub flags: u32,
}

impl SendMsg {
    pub const OPCODE: u8 = IORING_OP_SENDMSG;

    #[inline]
    pub fn new(fd: Target, msg: u64) -> (r: Self)
        ensures
            r.fd == fd,
            r.msg == msg,
            r.ioprio == 0,
            r.flags == 0,
    {
        Self { fd, msg, ioprio: 0, flags: 0 }
    }

    #[inline]
    pub fn ioprio(self, value: u16) -> (r: Self)
        ensures
            r == (Self { ioprio: value, ..self }),
    {
        Self { ioprio: value, ..self }
    }

    #[inline]
    pub fn flags(self, value: u32) -> (r: Self)
        ensures
            r == (Self { flags: value, ..self }),
    {
        Self { flags: value, ..self }
    }

}

impl Prepare for SendMsg {
    type Return = usize;

    open spec fn spec_opcode() -> u8 {
        Self::OPCODE
    }

    proof fn lemma_opcode(&self) {
    }

    open spec fn spec_sqe(&self) -> io_uring_sqe {
        io_uring_sqe {
            opcode: Self::OPCODE,
            flags: spec_fixed_file(self.fd),
            ioprio: 0u16,
            fd: self.fd.spec_raw(),
            off_addr2: 0u64,
            addr_splice: self.msg,
            len: 0u32,
            op_flags: self.flags,
            user_data: 0,
            extra: sqe_extra { buf_info: 0u16, personality: 0, splice_fd_in: 0i32 },
        }
    }

    fn prep_sqe(self, sqe: &mut SubmissionQueueEvent) {
        sqe.set_raw(io_uring_sqe {
            opcode: Self::OPCODE,
            flags: fixed_file(&self.fd),
            ioprio: 0u16,
            fd: self.fd.into_raw(),
            off_addr2: 0u64,
            addr_splice: self.msg,
            len: 0u32,
            op_flags: self.flags,
            user_data: 0,
            extra: sqe_extra { buf_info: 0u16, personality: 0, splice_fd_in: 0i32 },
        });
    }
}

/// Issue the equivalent of a `recvmsg(2)` system call.
#[derive(Copy, Clone, Debug)]
pub struct RecvMsg {
    pub fd: Target,
    pub msg: u64,
    pub ioprio: u16,
    pub flags: u32,
}

impl RecvMsg {
    pub const OPCODE: u8 = IORING_OP_RECVMSG;

    #[inline]
    pub fn new(fd: Target, msg: u64) -> (r: Self)
        ensures
            r.fd == fd,
            r.msg == msg,
            r.ioprio == 0,
            r.flags == 0,
    {
        Self { fd, msg, ioprio: 0, flags: 0 }
    }

    #[inline]
    pub fn ioprio(self, value: u16) -> (r: Self)
        ensures
            r == (Self { ioprio: value, ..self }),
    {
        Self { ioprio: value, ..self }
    }

    #[inline]
    pub fn flags(self, value: u32) -> (r: Self)
        ensures
            r == (Self { flags: value, ..self }),
    {
        Self { flags: value, ..self }
    }

}

impl Prepare for RecvMsg {
    type Return = usize;

    open spec fn spec_opcode() -> u8 {
        Self::OPCODE
    }

    proof fn lemma_opcode(&self) {
    }

    open spec fn spec_sqe(&self) -> io_uring_sqe {
        io_uring_sqe {
            opcode: Self::OPCODE,
            flags: spec_fixed_file(self.fd),
            ioprio: 0u16,
            fd: self.fd.spec_raw(),
            off_addr2: 0u64,
            addr_splice: self.msg,
            len: 0u32,
            op_flags: self.flags,
            user_data: 0,
            extra: sqe_extra { buf_info: 0u16, personality: 0, splice_fd_in: 0i32 },
        }
    }

    fn prep_sqe(self, sqe: &mut SubmissionQueueEvent) {
        sqe.set_raw(io_uring_sqe {
            opcode: Self::OPCODE,
            flags: fixed_file(&self.fd),
            ioprio: 0u16,
            fd: self.fd.into_raw(),
            off_addr2: 0u64,
            addr_splice: self.msg,
            len: 0u32,
            op_flags: self.flags,
            user_data: 0,
            extra: sqe_extra { buf_info: 0u16, personality: 0, splice_fd_in: 0i32 },
        });
    }
}

/// Register a timeout operation.
///
/// A timeout will trigger a wakeup event on the completion ring for anyone
/// waiting for events. A timeout condition is met when either the
/// specified timeout expires, or the specified number of events have
/// completed. The request will error with `ETIME` if the timeout got
/// completed through expiration of the timer or return 0 if the timeout
/// got completed through requests completing on their own. If the timeout
/// was cancelled before it expired, the request will error with
/// `ECANCELLED`.
#[derive(Copy, Clone, Debug)]
pub struct Timeout {
    pub timespec: u64,
    pub count: u32,
    pub flags: TimeoutFlags,
}

impl Timeout {
    pub const OPCODE: u8 = IORING_OP_TIMEOUT;

    #[inline]
    pub fn new(timespec: u64) -> (r: Self)
        ensures
            r.timespec == timespec,
            r.count == 0,
            r.flags@ == 0,
    {
        Self { timespec, count: 0, flags: TimeoutFlags::empty() }
    }

    #[inline]
    pub fn count(self, value: u32) -> (r: Self)
        ensures
            r == (Self { count: value, ..self }),
    {
        Self { count: value, ..self }
    }

    #[inline]
    pub fn flags(self, value: TimeoutFlags) -> (r: Self)
        ensures
            r == (Self { flags: value, ..self }),
    {
        Self { flags: value, ..self }
    }

}

impl Prepare for Timeout {
    type Return = ();

    open spec fn spec_opcode() -> u8 {
        Self::OPCODE
    }

    proof fn lemma_opcode(&self) {
    }

    open spec fn spec_sqe(&self) -> io_uring_sqe {
        io_uring_sqe {
            opcode: Self::OPCODE,
            flags: 0u8,
            ioprio: 0u16,
            fd: -1i32,
            off_addr2: self.count as u64,
            addr_splice: self.timespec,
            len: 1u32,
            op_flags: self.flags@,
            user_data: 0,
            extra: sqe_extra { buf_info: 0u16, personality: 0, splice_fd_in: 0i32 },
        }
    }

    fn prep_sqe(self, sqe: &mut SubmissionQueueEvent) {
        sqe.set_raw(io_uring_sqe {
            opcode: Self::OPCODE,
            flags: 0u8,
            ioprio: 0u16,
            fd: -1i32,
            off_addr2: self.count as u64,
            addr_splice: self.timespec,
            len: 1u32,
            op_flags: self.flags.bits(),
            user_data: 0,
            extra: sqe_extra { buf_info: 0u16, personality: 0, splice_fd_in: 0i32 },
        });
    }
}

/// Attempt to remove an existing timeout operation.
#[derive(Copy, Clone, Debug)]
pub struct TimeoutRemove {
    pub user_data: u64,
    pub flags: TimeoutFlags,
}

impl TimeoutRemove {
    pub const OPCODE: u8 = IORING_OP_TIMEOUT_REMOVE;

    #[inline]
    pub fn new(user_data: u64) -> (r: Self)
        ensures
            r.user_data == user_data,
            r.flags@ == 0,
    {
        Self { user_data, flags: TimeoutFlags::empty() }
    }

    #[inline]
    pub fn flags(self, value: TimeoutFlags) -> (r: Self)
        ensures
            r == (Self { flags: value, ..self }),
    {
        Self { flags: value, ..self }
    }

}

impl Prepare for TimeoutRemove {
    type Return = ();

    open spec fn spec_opcode() -> u8 {
        Self::OPCODE
    }

    proof fn lemma_opcode(&self) {
    }

    open spec fn spec_sqe(&self) -> io_uring_sqe {
        io_uring_sqe {
            opcode: Self::OPCODE,
            flags: 0u8,
            ioprio: 0u16,
            fd: -1i32,
            off_addr2: 0u64,
            addr_splice: self.user_data,
            len: 0u32,
            op_flags: self.flags@,
            user_data: 0,
            extra: sqe_extra { buf_info: 0u16, personality: 0, splice_fd_in: 0i32 },
        }
    }

    fn prep_sqe(self, sqe: &mut SubmissionQueueEvent) {
        sqe.set_raw(io_uring_sqe {
            opcode: Self::OPCODE,
            flags: 0u8,
            ioprio: 0u16,
            fd: -1i32,
            off_addr2: 0u64,
            addr_splice: self.user_data,
            len: 0u32,
            op_flags: self.flags.bits(),
            user_data: 0,
            extra: sqe_extra { buf_info: 0u16, personality: 0, splice_fd_in: 0i32 },
        });
    }
}

/// Issue the equivalent of an `accept4(2)` syscall.
#[derive(Copy, Clone, Debug)]
pub struct Accept {
    pub fd: Target,
    pub addr: u64,
    pub addrlen: u64,
    pub flags: u32,
}

impl Accept {
    pub const OPCODE: u8 = IORING_OP_ACCEPT;

    #[inline]
    pub fn new(fd: Target, addr: u64, addrlen: u64) -> (r: Self)
        ensures
            r.fd == fd,
            r.addr == addr,
            r.addrlen == addrlen,
            r.flags == 0,
    {
        Self { fd, addr, addrlen, flags: 0 }
    }

    #[inline]
    pub fn flags(self, value: u32) -> (r: Self)
        ensures
            r == (Self { flags: value, ..self }),
    {
        Self { flags: value, ..self }
    }

}

impl Prepare for Accept {
    type Return = RawFd;

    open spec fn spec_opcode() -> u8 {
        Self::OPCODE
    }

    proof fn lemma_opcode(&self) {
    }

    open spec fn spec_sqe(&self) -> io_uring_sqe {
        io_uring_sqe {
            opcode: Self::OPCODE,
            flags: spec_fixed_file(self.fd),
            ioprio: 0u16,
            fd: self.fd.spec_raw(),
            off_addr2: self.addrlen,
            addr_splice: self.addr,
            len: 0u32,
            op_flags: self.flags,
            user_data: 0,
            extra: sqe_extra { buf_info: 0u16, personality: 0, splice_fd_in: 0i32 },
        }
    }

    fn prep_sqe(self, sqe: &mut SubmissionQueueEvent) {
        sqe.set_raw(io_uring_sqe {
            opcode: Self::OPCODE,
            flags: fixed_file(&self.fd),
            ioprio: 0u16,
            fd: self.fd.into_raw(),
            off_addr2: self.addrlen,
            addr_splice: self.addr,
            len: 0u32,
            op_flags: self.flags,
            user_data: 0,
            extra: sqe_extra { buf_info: 0u16, personality: 0, splice_fd_in: 0i32 },
        });
    }
}

/// Attempt to cancel an already issued request.
#[derive(Copy, Clone, Debug)]
pub struct AsyncCancel {
    pub user_data: u64,
    pub flags: u32,
}

impl AsyncCancel {
    pub const OPCODE: u8 = IORING_OP_ASYNC_CANCEL;

    #[inline]
    pub fn new(user_data: u64) -> (r: Self)
        ensures
            r.user_data == user_data,
            r.flags == 0,
    {
        Self { user_data, flags: 0 }
    }

    #[inline]
    pub fn flags(self, value: u32) -> (r: Self)
        ensures
            r == (Self { flags: value, ..self }),
    {
        Self { flags: value, ..self }
    }

}

impl Prepare for AsyncCancel {
    type Return = ();

    open spec fn spec_opcode() -> u8 {
        Self::OPCODE
    }

    proof fn lemma_opcode(&self) {
    }

    open spec fn spec_sqe(&self) -> io_uring_sqe {
        io_uring_sqe {
            opcode: Self::OPCODE,
            flags: 0u8,
            ioprio: 0u16,
            fd: -1i32,
            off_addr2: 0u64,
            addr_splice: self.user_data,
            len: 0u32,
            op_flags: self.flags,
            user_data: 0,
            extra: sqe_extra { buf_info: 0u16, personality: 0, splice_fd_in: 0i32 },
        }
    }

    fn prep_sqe(self, sqe: &mut SubmissionQueueEvent) {
        sqe.set_raw(io_uring_sqe {
            opcode: Self::OPCODE,
            flags: 0u8,
            ioprio: 0u16,
            fd: -1i32,
            off_addr2: 0u64,
            addr_splice: self.user_data,
            len: 0u32,
            op_flags: self.flags,
            user_data: 0,
            extra: sqe_extra { buf_info: 0u16, personality: 0, splice_fd_in: 0i32 },
        });
    }
}

/// Cancel the linked request after a specific amount of time.
///
/// This request must be linked with another request through
/// `SubmissionFlags::IO_LINK`. Unlike `Timeout`, `LinkTimeout` acts on the
/// linked request, not the completion queue.
#[derive(Copy, Clone, Debug)]
pub struct LinkTimeout {
    pub timespec: u64,
    pub flags: TimeoutFlags,
}

impl LinkTimeout {
    pub const OPCODE: u8 = IORING_OP_LINK_TIMEOUT;

    #[inline]
    pub fn new(timespec: u64) -> (r: Self)
        ensures
            r.timespec == timespec,
            r.flags@ == 0,
    {
        Self { timespec, flags: TimeoutFlags::empty() }
    }

    #[inline]
    pub fn flags(self, value: TimeoutFlags) -> (r: Self)
        ensures
            r == (Self { flags: value, ..self }),
    {
        Self { flags: value, ..self }
    }

}

impl Prepare for LinkTimeout {
    type Return = ();

    open spec fn spec_opcode() -> u8 {
        Self::OPCODE
    }

    proof fn lemma_opcode(&self) {
    }

    open spec fn spec_sqe(&self) -> io_uring_sqe {
        io_uring_sqe {
            opcode: Self::OPCODE,
            flags: 0u8,
            ioprio: 0u16,
            fd: -1i32,
            off_addr2: 0u64,
            addr_splice: self.timespec,
            len: 0u32,
            op_flags: self.flags@,
            user_data: 0,
            extra: sqe_extra { buf_info: 0u16, personality: 0, splice_fd_in: 0i32 },
        }
    }

    fn prep_sqe(self, sqe: &mut SubmissionQueueEvent) {
        sqe.set_raw(io_uring_sqe {
            opcode: Self::OPCODE,
            flags: 0u8,
            ioprio: 0u16,
            fd: -1i32,
            off_addr2: 0u64,
            addr_splice: self.timespec,
            len: 0u32,
            op_flags: self.flags.bits(),
            user_data: 0,
            extra: sqe_extra { buf_info: 0u16, personality: 0, splice_fd_in: 0i32 },
        });
    }
}

/// Issue the equivalent of a `connect(2)` syscall.
#[derive(Copy, Clone, Debug)]
pub struct Connect {
    pub fd: Target,
    pub addr: u64,
    pub addrlen: u64,
}

impl Connect {
    pub const OPCODE: u8 = IORING_OP_CONNECT;

    #[inline]
    pub fn new(fd: Target, addr: u64, addrlen: u64) -> (r: Self)
        ensures
            r.fd == fd,
            r.addr == addr,
            r.addrlen == addrlen,
    {
        Self { fd, addr, addrlen }
    }

}

impl Prepare for Connect {
    type Return = ();

    open spec fn spec_opcode() -> u8 {
        Self::OPCODE
    }

    proof fn lemma_opcode(&self) {
    }

    open spec fn spec_sqe(&self) -> io_uring_sqe {
        io_uring_sqe {
            opcode: Self::OPCODE,
            flags: spec_fixed_file(self.fd),
            ioprio: 0u16,
            fd: self.fd.spec_raw(),
            off_addr2: self.addrlen,
            addr_splice: self.addr,
            len: 0u32,
            op_flags: 0u32,
            user_data: 0,
            extra: sqe_extra { buf_info: 0u16, personality: 0, splice_fd_in: 0i32 },
        }
    }

    fn prep_sqe(self, sqe: &mut SubmissionQueueEvent) {
        sqe.set_raw(io_uring_sqe {
            opcode: Self::OPCODE,
            flags: fixed_file(&self.fd),
            ioprio: 0u16,
            fd: self.fd.into_raw(),
            off_addr2: self.addrlen,
            addr_splice: self.addr,
            len: 0u32,
            op_flags: 0u32,
            user_data: 0,
            extra: sqe_extra { buf_info: 0u16, personality: 0, splice_fd_in: 0i32 },
        });
    }
}

/// Issue the equivalent of a `fallocate(2)` syscall.
#[derive(Copy, Clone, Debug)]
pub struct Fallocate {
    pub fd: Target,
    pub len: u32,
    pub offset: i64,
    pub mode: i32,
}

impl Fallocate {
    pub const OPCODE: u8 = IORING_OP_FALLOCATE;

    #[inline]
    pub fn new(fd: Target, len: u32) -> (r: Self)
        ensures
            r.fd == fd,
            r.len == len,
            r.offset == 0,
            r.mode == 0,
    {
        Self { fd, len, offset: 0, mode: 0 }
    }

    #[inline]
    pub fn offset(self, value: i64) -> (r: Self)
        ensures
            r == (Self { offset: value, ..self }),
    {
        Self { offset: value, ..self }
    }

    #[inline]
    pub fn mode(self, value: i32) -> (r: Self)
        ensures
            r == (Self { mode: value, ..self }),
    {
        Self { mode: value, ..self }
    }

}

impl Prepare for Fallocate {
    type Return = ();

    open spec fn spec_opcode() -> u8 {
        Self::OPCODE
    }

    proof fn lemma_opcode(&self) {
    }

    open spec fn spec_sqe(&self) -> io_uring_sqe {
        io_uring_sqe {
            opcode: Self::OPCODE,
            flags: spec_fixed_file(self.fd),
            ioprio: 0u16,
            fd: self.fd.spec_raw(),
            off_addr2: self.offset as u64,
            addr_splice: self.len as u64,
            len: self.mode as u32,
            op_flags: 0u32,
            user_data: 0,
            extra: sqe_extra { buf_info: 0u16, personality: 0, splice_fd_in: 0i32 },
        }
    }

    fn prep_sqe(self, sqe: &mut SubmissionQueueEvent) {
        sqe.set_raw(io_uring_sqe {
            opcode: Self::OPCODE,
            flags: fixed_file(&self.fd),
            ioprio: 0u16,
            fd: self.fd.into_raw(),
            off_addr2: self.offset as u64,
            addr_splice: self.len as u64,
            len: self.mode as u32,
            op_flags: 0u32,
            user_data: 0,
            extra: sqe_extra { buf_info: 0u16, personality: 0, splice_fd_in: 0i32 },
        });
    }
}

/// Issue the equivalent of a `posix_fadvise(2)` syscall.
#[derive(Copy, Clone, Debug)]
pub struct Fadvise {
    pub fd: Target,
    pub len: i64,
    pub advice: i32,
    pub offset: i64,
}

impl Fadvise {
    pub const OPCODE: u8 = IORING_OP_FADVISE;

    #[inline]
    pub fn new(fd: Target, len: i64, advice: i32) -> (r: Self)
        ensures
            r.fd == fd,
            r.len == len,
            r.advice == advice,
            r.offset == 0,
    {
        Self { fd, len, advice, offset: 0 }
    }

    #[inline]
    pub fn offset(self, value: i64) -> (r: Self)
        ensures
            r == (Self { offset: value, ..self }),
    {
        Self { offset: value, ..self }
    }

}

impl Prepare for Fadvise {
    type Return = ();

    open spec fn spec_opcode() -> u8 {
        Self::OPCODE
    }

    proof fn lemma_opcode(&self) {
    }

    open spec fn spec_sqe(&self) -> io_uring_sqe {
        io_uring_sqe {
            opcode: Self::OPCODE,
            flags: spec_fixed_file(self.fd),
            ioprio: 0u16,
            fd: self.fd.spec_raw(),
            off_addr2: self.offset as u64,
            addr_splice: 0u64,
            len: spec_saturating_u32(self.len),
            op_flags: self.advice as u32,
            user_data: 0,
            extra: sqe_extra { buf_info: 0u16, personality: 0, splice_fd_in: 0i32 },
        }
    }

    fn prep_sqe(self, sqe: &mut SubmissionQueueEvent) {
        sqe.set_raw(io_uring_sqe {
            opcode: Self::OPCODE,
            flags: fixed_file(&self.fd),
            ioprio: 0u16,
            fd: self.fd.into_raw(),
            off_addr2: self.offset as u64,
            addr_splice: 0u64,
            len: saturating_u32(self.len),
            op_flags: self.advice as u32,
            user_data: 0,
            extra: sqe_extra { buf_info: 0u16, personality: 0, splice_fd_in: 0i32 },
        });
    }
}

/// Issue the equivalent of a `madvise(2)` syscall.
#[derive(Copy, Clone, Debug)]
pub struct Madvise {
    pub addr: u64,
    pub len: i64,
    pub advice: i32,
}

impl Madvise {
    pub const OPCODE: u8 = IORING_OP_MADVISE;

    #[inline]
    pub fn new(addr: u64, len: i64, advice: i32) -> (r: Self)
        ensures
            r.addr == addr,
            r.len == len,
            r.advice == advice,
    {
        Self { addr, len, advice }
    }

}

impl Prepare for Madvise {
    type Return = ();

    open spec fn spec_opcode() -> u8 {
        Self::OPCODE
    }

    proof fn lemma_opcode(&self) {
    }

    open spec fn spec_sqe(&self) -> io_uring_sqe {
        io_uring_sqe {
            opcode: Self::OPCODE,
            flags: 0u8,
            ioprio: 0u16,
            fd: -1i32,
            off_addr2: 0u64,
            addr_splice: self.addr,
            len: spec_saturating_u32(self.len),
            op_flags: self.advice as u32,
            user_data: 0,
            extra: sqe_extra { buf_info: 0u16, personality: 0, splice_fd_in: 0i32 },
        }
    }

    fn prep_sqe(self, sqe: &mut SubmissionQueueEvent) {
        sqe.set_raw(io_uring_sqe {
            opcode: Self::OPCODE,
            flags: 0u8,
            ioprio: 0u16,
            fd: -1i32,
            off_addr2: 0u64,
            addr_splice: self.addr,
            len: saturating_u32(self.len),
            op_flags: self.advice as u32,
            user_data: 0,
            extra: sqe_extra { buf_info: 0u16, personality: 0, splice_fd_in: 0i32 },
        });
    }
}

/// Issue the equivalent of an `openat(2)` syscall.
#[derive(Copy, Clone, Debug)]
pub struct OpenAt {
    pub dirfd: RawFd,
    pub pathname: u64,
    pub flags: i32,
    pub mode: u32,
}

impl OpenAt {
    pub const OPCODE: u8 = IORING_OP_OPENAT;

    #[inline]
    pub fn new(dirfd: RawFd, pathname: u64) -> (r: Self)
        ensures
            r.dirfd == dirfd,
            r.pathname == pathname,
            r.flags == 0,
            r.mode == 0,
    {
        Self { dirfd, pathname, flags: 0, mode: 0 }
    }

    #[inline]
    pub fn flags(self, value: i32) -> (r: Self)
        ensures
            r == (Self { flags: value, ..self }),
    {
        Self { flags: value, ..self }
    }

    #[inline]
    pub fn mode(self, value: u32) -> (r: Self)
        ensures
            r == (Self { mode: value, ..self }),
    {
        Self { mode: value, ..self }
    }

}

impl Prepare for OpenAt {
    type Return = RawFd;

    open spec fn spec_opcode() -> u8 {
        Self::OPCODE
    }

    proof fn lemma_opcode(&self) {
    }

    open spec fn spec_sqe(&self) -> io_uring_sqe {
        io_uring_sqe {
            opcode: Self::OPCODE,
            flags: 0u8,
            ioprio: 0u16,
            fd: self.dirfd,
            off_addr2: 0u64,
            addr_splice: self.pathname,
            len: self.mode,
            op_flags: self.flags as u32,
            user_data: 0,
            extra: sqe_extra { buf_info: 0u16, personality: 0, splice_fd_in: 0i32 },
        }
    }

    fn prep_sqe(self, sqe: &mut SubmissionQueueEvent) {
        sqe.set_raw(io_uring_sqe {
            opcode: Self::OPCODE,
            flags: 0u8,
            ioprio: 0u16,
            fd: self.dirfd,
            off_addr2: 0u64,
            addr_splice: self.pathname,
            len: self.mode,
            op_flags: self.flags as u32,
            user_data: 0,
            extra: sqe_extra { buf_info: 0u16, personality: 0, splice_fd_in: 0i32 },
        });
    }
}

/// Issue the equivalent of an `openat2(2)` syscall.
#[derive(Copy, Clone, Debug)]
pub struct OpenAt2 {
    pub dirfd: RawFd,
    pub pathname: u64,
    pub how: u64,
    pub len: u32,
}

impl OpenAt2 {
    pub const OPCODE: u8 = IORING_OP_OPENAT2;

    #[inline]
    pub fn new(dirfd: RawFd, pathname: u64, how: u64) -> (r: Self)
        ensures
            r.dirfd == dirfd,
            r.pathname == pathname,
            r.how == how,
            r.len == OPEN_HOW_SIZE,
    {
        Self { dirfd, pathname, how, len: OPEN_HOW_SIZE }
    }

    #[inline]
    pub fn len(self, value: u32) -> (r: Self)
        ensures
            r == (Self { len: value, ..self }),
    {
        Self { len: value, ..self }
    }

}

impl Prepare for OpenAt2 {
    type Return = RawFd;

    open spec fn spec_opcode() -> u8 {
        Self::OPCODE
    }

    proof fn lemma_opcode(&self) {
    }

    open spec fn spec_sqe(&self) -> io_uring_sqe {
        io_uring_sqe {
            opcode: Self::OPCODE,
            flags: 0u8,
            ioprio: 0u16,
            fd: self.dirfd,
            off_addr2: self.how,
            addr_splice: self.pathname,
            len: self.len,
            op_flags: 0u32,
            user_data: 0,
            extra: sqe_extra { buf_info: 0u16, personality: 0, splice_fd_in: 0i32 },
        }
    }

    fn prep_sqe(self, sqe: &mut SubmissionQueueEvent) {
        sqe.set_raw(io_uring_sqe {
            opcode: Self::OPCODE,
            flags: 0u8,
            ioprio: 0u16,
            fd: self.dirfd,
            off_addr2: self.how,
            addr_splice: self.pathname,
            len: self.len,
            op_flags: 0u32,
            user_data: 0,
            extra: sqe_extra { buf_info: 0u16, personality: 0, splice_fd_in: 0i32 },
        });
    }
}

/// Issue the equivalent of a `close(2)` syscall.
#[derive(Copy, Clone, Debug)]
pub struct Close {
    pub fd: RawFd,
}

impl Close {
    pub const OPCODE: u8 = IORING_OP_CLOSE;

    #[inline]
    pub fn new(fd: RawFd) -> (r: Self)
        ensures
            r.fd == fd,
    {
        Self { fd }
    }

}

impl Prepare for Close {
    type Return = ();

    open spec fn spec_opcode() -> u8 {
        Self::OPCODE
    }

    proof fn lemma_opcode(&self) {
    }

    open spec fn spec_sqe(&self) -> io_uring_sqe {
        io_uring_sqe {
            opcode: Self::OPCODE,
            flags: 0u8,
            ioprio: 0u16,
            fd: self.fd,
            off_addr2: 0u64,
            addr_splice: 0u64,
            len: 0u32,
            op_flags: 0u32,
            user_data: 0,
            extra: sqe_extra { buf_info: 0u16, personality: 0, splice_fd_in: 0i32 },
        }
    }

    fn prep_sqe(self, sqe: &mut SubmissionQueueEvent) {
        sqe.set_raw(io_uring_sqe {
            opcode: Self::OPCODE,
            flags: 0u8,
            ioprio: 0u16,
            fd: self.fd,
            off_addr2: 0u64,
            addr_splice: 0u64,
            len: 0u32,
            op_flags: 0u32,
            user_data: 0,
            extra: sqe_extra { buf_info: 0u16, personality: 0, splice_fd_in: 0i32 },
        });
    }
}

/// Issue the equivalent of a `statx(2)` syscall.
#[derive(Copy, Clone, Debug)]
pub struct Statx {
    pub dirfd: RawFd,
    pub pathname: u64,
    pub statxbuf: u64,
    pub flags: i32,
    pub mask: u32,
}

impl Statx {
    pub const OPCODE: u8 = IORING_OP_STATX;

    #[inline]
    pub fn new(dirfd: RawFd, pathname: u64, statxbuf: u64) -> (r: Self)
        ensures
            r.dirfd == dirfd,
            r.pathname == pathname,
            r.statxbuf == statxbuf,
            r.flags == 0,
            r.mask == 0,
    {
        Self { dirfd, pathname, statxbuf, flags: 0, mask: 0 }
    }

    #[inline]
    pub fn flags(self, value: i32) -> (r: Self)
        ensures
            r == (Self { flags: value, ..self }),
    {
        Self { flags: value, ..self }
    }

    #[inline]
    pub fn mask(self, value: u32) -> (r: Self)
        ensures
            r == (Self { mask: value, ..self }),
    {
        Self { mask: value, ..self }
    }

}

impl Prepare for Statx {
    type Return = ();

    open spec fn spec_opcode() -> u8 {
        Self::OPCODE
    }

    proof fn lemma_opcode(&self) {
    }

    open spec fn spec_sqe(&self) -> io_uring_sqe {
        io_uring_sqe {
            opcode: Self::OPCODE,
            flags: 0u8,
            ioprio: 0u16,
            fd: self.dirfd,
            off_addr2: self.statxbuf,
            addr_splice: self.pathname,
            len: self.mask,
            op_flags: self.flags as u32,
            user_data: 0,
            extra: sqe_extra { buf_info: 0u16, personality: 0, splice_fd_in: 0i32 },
        }
    }

    fn prep_sqe(self, sqe: &mut SubmissionQueueEvent) {
        sqe.set_raw(io_uring_sqe {
            opcode: Self::OPCODE,
            flags: 0u8,
            ioprio: 0u16,
            fd: self.dirfd,
            off_addr2: self.statxbuf,
            addr_splice: self.pathname,
            len: self.mask,
            op_flags: self.flags as u32,
            user_data: 0,
            extra: sqe_extra { buf_info: 0u16, personality: 0, splice_fd_in: 0i32 },
        });
    }
}

/// Issue the equivalent of a `read(2)` syscall.
#[derive(Copy, Clone, Debug)]
pub struct Read {
    pub fd: Target,
    pub buf: u64,
    pub len: u32,
    pub offset: i64,
    pub ioprio: u16,
    pub rw_flags: RwFlags,
}

impl Read {
    pub const OPCODE: u8 = IORING_OP_READ;

    #[inline]
    pub fn new(fd: Target, buf: u64, len: u32) -> (r: Self)
        ensures
            r.fd == fd,
            r.buf == buf,
            r.len == len,
            r.offset == 0,
            r.ioprio == 0,
            r.rw_flags == 0,
    {
        Self { fd, buf, len, offset: 0, ioprio: 0, rw_flags: 0 }
    }

    #[inline]
    pub fn offset(self, value: i64) -> (r: Self)
        ensures
            r == (Self { offset: value, ..self }),
    {
        Self { offset: value, ..self }
    }

    #[inline]
    pub fn ioprio(self, value: u16) -> (r: Self)
        ensures
            r == (Self { ioprio: value, ..self }),
    {
        Self { ioprio: value, ..self }
    }

    #[inline]
    pub fn rw_flags(self, value: RwFlags) -> (r: Self)
        ensures
            r == (Self { rw_flags: value, ..self }),
    {
        Self { rw_flags: value, ..self }
    }

}

impl Prepare for Read {
    type Return = usize;

    open spec fn spec_opcode() -> u8 {
        Self::OPCODE
    }

    proof fn lemma_opcode(&self) {
    }

    open spec fn spec_sqe(&self) -> io_uring_sqe {
        io_uring_sqe {
            opcode: Self::OPCODE,
            flags: spec_fixed_file(self.fd),
            ioprio: self.ioprio,
            fd: self.fd.spec_raw(),
            off_addr2: self.offset as u64,
            addr_splice: self.buf,
            len: self.len,
            op_flags: self.rw_flags as u32,
            user_data: 0,
            extra: sqe_extra { buf_info: 0u16, personality: 0, splice_fd_in: 0i32 },
        }
    }

    fn prep_sqe(self, sqe: &mut SubmissionQueueEvent) {
        sqe.set_raw(io_uring_sqe {
            opcode: Self::OPCODE,
            flags: fixed_file(&self.fd),
            ioprio: self.ioprio,
            fd: self.fd.into_raw(),
            off_addr2: self.offset as u64,
            addr_splice: self.buf,
            len: self.len,
            op_flags: self.rw_flags as u32,
            user_data: 0,
            extra: sqe_extra { buf_info: 0u16, personality: 0, splice_fd_in: 0i32 },
        });
    }
}

/// Issue the equivalent of a `write(2)` syscall.
#[derive(Copy, Clone, Debug)]
pub struct Write {
    pub fd: Target,
    pub buf: u64,
    pub len: u32,
    pub offset: i64,
    pub ioprio: u16,
    pub rw_flags: RwFlags,
}

impl Write {
    pub const OPCODE: u8 = IORING_OP_WRITE;

    #[inline]
    pub fn new(fd: Target, buf: u64, len: u32) -> (r: Self)
        ensures
            r.fd == fd,
            r.buf == buf,
            r.len == len,
            r.offset == 0,
            r.ioprio == 0,
            r.rw_flags == 0,
    {
        Self { fd, buf, len, offset: 0, ioprio: 0, rw_flags: 0 }
    }

    #[inline]
    pub fn offset(self, value: i64) -> (r: Self)
        ensures
            r == (Self { offset: value, ..self }),
    {
        Self { offset: value, ..self }
    }

    #[inline]
    pub fn ioprio(self, value: u16) -> (r: Self)
        ensures
            r == (Self { ioprio: value, ..self }),
    {
        Self { ioprio: value, ..self }
    }

    #[inline]
    pub fn rw_flags(self, value: RwFlags) -> (r: Self)
        ensures
            r == (Self { rw_flags: value, ..self }),
    {
        Self { rw_flags: value, ..self }
    }

}

impl Prepare for Write {
    type Return = usize;

    open spec fn spec_opcode() -> u8 {
        Self::OPCODE
    }

    proof fn lemma_opcode(&self) {
    }

    open spec fn spec_sqe(&self) -> io_uring_sqe {
        io_uring_sqe {
            opcode: Self::OPCODE,
            flags: spec_fixed_file(self.fd),
            ioprio: self.ioprio,
            fd: self.fd.spec_raw(),
            off_addr2: self.offset as u64,
            addr_splice: self.buf,
            len: self.len,
            op_flags: self.rw_flags as u32,
            user_data: 0,
            extra: sqe_extra { buf_info: 0u16, personality: 0, splice_fd_in: 0i32 },
        }
    }

    fn prep_sqe(self, sqe: &mut SubmissionQueueEvent) {
        sqe.set_raw(io_uring_sqe {
            opcode: Self::OPCODE,
            flags: fixed_file(&self.fd),
            ioprio: self.ioprio,
            fd: self.fd.into_raw(),
            off_addr2: self.offset as u64,
            addr_splice: self.buf,
            len: self.len,
            op_flags: self.rw_flags as u32,
            user_data: 0,
            extra: sqe_extra { buf_info: 0u16, personality: 0, splice_fd_in: 0i32 },
        });
    }
}

/// Issue the equivalent of a `send(2)` syscall.
#[derive(Copy, Clone, Debug)]
pub struct Send {
    pub fd: Target,
    pub buf: u64,
    pub len: u32,
    pub flags: i32,
}

impl Send {
    pub const OPCODE: u8 = IORING_OP_SEND;

    #[inline]
    pub fn new(fd: Target, buf: u64, len: u32) -> (r: Self)
        ensures
            r.fd == fd,
            r.buf == buf,
            r.len == len,
            r.flags == 0,
    {
        Self { fd, buf, len, flags: 0 }
    }

    #[inline]
    pub fn flags(self, value: i32) -> (r: Self)
        ensures
            r == (Self { flags: value, ..self }),
    {
        Self { flags: value, ..self }
    }

}

impl Prepare for Send {
    type Return = usize;

    open spec fn spec_opcode() -> u8 {
        Self::OPCODE
    }

    proof fn lemma_opcode(&self) {
    }

    open spec fn spec_sqe(&self) -> io_uring_sqe {
        io_uring_sqe {
            opcode: Self::OPCODE,
            flags: spec_fixed_file(self.fd),
            ioprio: 0u16,
            fd: self.fd.spec_raw(),
            off_addr2: 0u64,
            addr_splice: self.buf,
            len: self.len,
            op_flags: self.flags as u32,
            user_data: 0,
            extra: sqe_extra { buf_info: 0u16, personality: 0, splice_fd_in: 0i32 },
        }
    }

    fn prep_sqe(self, sqe: &mut SubmissionQueueEvent) {
        sqe.set_raw(io_uring_sqe {
            opcode: Self::OPCODE,
            flags: fixed_file(&self.fd),
            ioprio: 0u16,
            fd: self.fd.into_raw(),
            off_addr2: 0u64,
            addr_splice: self.buf,
            len: self.len,
            op_flags: self.flags as u32,
            user_data: 0,
            extra: sqe_extra { buf_info: 0u16, personality: 0, splice_fd_in: 0i32 },
        });
    }
}

/// Issue the equivalent of a `recv(2)` syscall.
#[derive(Copy, Clone, Debug)]
pub struct Recv {
    pub fd: Target,
    pub buf: u64,
    pub len: u32,
    pub flags: i32,
}

impl Recv {
    pub const OPCODE: u8 = IORING_OP_RECV;

    #[inline]
    pub fn new(fd: Target, buf: u64, len: u32) -> (r: Self)
        ensures
            r.fd == fd,
            r.buf == buf,
            r.len == len,
            r.flags == 0,
    {
        Self { fd, buf, len, flags: 0 }
    }

    #[inline]
    pub fn flags(self, value: i32) -> (r: Self)
        ensures
            r == (Self { flags: value, ..self }),
    {
        Self { flags: value, ..self }
    }

}

impl Prepare for Recv {
    type Return = usize;

    open spec fn spec_opcode() -> u8 {
        Self::OPCODE
    }

    proof fn lemma_opcode(&self) {
    }

    open spec fn spec_sqe(&self) -> io_uring_sqe {
        io_uring_sqe {
            opcode: Self::OPCODE,
            flags: spec_fixed_file(self.fd),
            ioprio: 0u16,
            fd: self.fd.spec_raw(),
            off_addr2: 0u64,
            addr_splice: self.buf,
            len: self.len,
            op_flags: self.flags as u32,
            user_data: 0,
            extra: sqe_extra { buf_info: 0u16, personality: 0, splice_fd_in: 0i32 },
        }
    }

    fn prep_sqe(self, sqe: &mut SubmissionQueueEvent) {
        sqe.set_raw(io_uring_sqe {
            opcode: Self::OPCODE,
            flags: fixed_file(&self.fd),
            ioprio: 0u16,
            fd: self.fd.into_raw(),
            off_addr2: 0u64,
            addr_splice: self.buf,
            len: self.len,
            op_flags: self.flags as u32,
            user_data: 0,
            extra: sqe_extra { buf_info: 0u16, personality: 0, splice_fd_in: 0i32 },
        });
    }
}

/// Issue the equivalent of an `epoll_ctl(2)` syscall.
#[derive(Copy, Clone, Debug)]
pub struct EpollCtl {
    pub epfd: Target,
    pub fd: RawFd,
    pub op: i32,
    pub ev: u64,
}

impl EpollCtl {
    pub const OPCODE: u8 = IORING_OP_EPOLL_CTL;

    #[inline]
    pub fn new(epfd: Target, fd: RawFd, op: i32, ev: u64) -> (r: Self)
        ensures
            r.epfd == epfd,
            r.fd == fd,
            r.op == op,
            r.ev == ev,
    {
        Self { epfd, fd, op, ev }
    }

}

impl Prepare for EpollCtl {
    type Return = ();

    open spec fn spec_opcode() -> u8 {
        Self::OPCODE
    }

    proof fn lemma_opcode(&self) {
    }

    open spec fn spec_sqe(&self) -> io_uring_sqe {
        io_uring_sqe {
            opcode: Self::OPCODE,
            flags: spec_fixed_file(self.epfd),
            ioprio: 0u16,
            fd: self.epfd.spec_raw(),
            off_addr2: self.fd as u64,
            addr_splice: self.ev,
            len: self.op as u32,
            op_flags: 0u32,
            user_data: 0,
            extra: sqe_extra { buf_info: 0u16, personality: 0, splice_fd_in: 0i32 },
        }
    }

    fn prep_sqe(self, sqe: &mut SubmissionQueueEvent) {
        sqe.set_raw(io_uring_sqe {
            opcode: Self::OPCODE,
            flags: fixed_file(&self.epfd),
            ioprio: 0u16,
            fd: self.epfd.into_raw(),
            off_addr2: self.fd as u64,
            addr_splice: self.ev,
            len: self.op as u32,
            op_flags: 0u32,
            user_data: 0,
            extra: sqe_extra { buf_info: 0u16, personality: 0, splice_fd_in: 0i32 },
        });
    }
}

/// Issue the equivalent of a `splice(2)` syscall.
#[derive(Copy, Clone, Debug)]
pub struct Splice {
    pub fd_in: Target,
    pub off_in: i64,
    pub fd_out: Target,
    pub off_out: i64,
    pub len: u32,
    pub flags: u32,
}

impl Splice {
    pub const OPCODE: u8 = IORING_OP_SPLICE;

    #[inline]
    pub fn new(fd_in: Target, off_in: i64, fd_out: Target, off_out: i64, len: u32) -> (r: Self)
        ensures
            r.fd_in == fd_in,
            r.off_in == off_in,
            r.fd_out == fd_out,
            r.off_out == off_out,
            r.len == len,
            r.flags == 0,
    {
        Self { fd_in, off_in, fd_out, off_out, len, flags: 0 }
    }

    #[inline]
    pub fn flags(self, value: u32) -> (r: Self)
        ensures
            r == (Self { flags: value, ..self }),
    {
        Self { flags: value, ..self }
    }

}

impl Prepare for Splice {
    type Return = usize;

    open spec fn spec_opcode() -> u8 {
        Self::OPCODE
    }

    proof fn lemma_opcode(&self) {
    }

    open spec fn spec_sqe(&self) -> io_uring_sqe {
        io_uring_sqe {
            opcode: Self::OPCODE,
            flags: spec_fixed_file(self.fd_out),
            ioprio: 0u16,
            fd: self.fd_out.spec_raw(),
            off_addr2: self.off_out as u64,
            addr_splice: self.off_in as u64,
            len: self.len,
            op_flags: spec_splice_flags(self.flags, self.fd_in),
            user_data: 0,
            extra: sqe_extra { buf_info: 0u16, personality: 0, splice_fd_in: self.fd_in.spec_raw() },
        }
    }

    fn prep_sqe(self, sqe: &mut SubmissionQueueEvent) {
        sqe.set_raw(io_uring_sqe {
            opcode: Self::OPCODE,
            flags: fixed_file(&self.fd_out),
            ioprio: 0u16,
            fd: self.fd_out.into_raw(),
            off_addr2: self.off_out as u64,
            addr_splice: self.off_in as u64,
            len: self.len,
            op_flags: splice_flags(self.flags, &self.fd_in),
            user_data: 0,
            extra: sqe_extra { buf_info: 0u16, personality: 0, splice_fd_in: self.fd_in.into_raw() },
        });
    }
}

/// Issue the equivalent of a `tee(2)` syscall.
#[derive(Copy, Clone, Debug)]
pub struct Tee {
    pub fd_in: Target,
    pub fd_out: Target,
    pub len: u32,
    pub flags: u32,
}

impl Tee {
    pub const OPCODE: u8 = IORING_OP_TEE;

    #[inline]
    pub fn new(fd_in: Target, fd_out: Target, len: u32) -> (r: Self)
        ensures
            r.fd_in == fd_in,
            r.fd_out == fd_out,
            r.len == len,
            r.flags == 0,
    {
        Self { fd_in, fd_out, len, flags: 0 }
    }

    #[inline]
    pub fn flags(self, value: u32) -> (r: Self)
        ensures
            r == (Self { flags: value, ..self }),
    {
        Self { flags: value, ..self }
    }

}

impl Prepare for Tee {
    type Return = usize;

    open spec fn spec_opcode() -> u8 {
        Self::OPCODE
    }

    proof fn lemma_opcode(&self) {
    }

    open spec fn spec_sqe(&self) -> io_uring_sqe {
        io_uring_sqe {
            opcode: Self::OPCODE,
            flags: spec_fixed_file(self.fd_out),
            ioprio: 0u16,
            fd: self.fd_out.spec_raw(),
            off_addr2: 0u64,
            addr_splice: 0u64,
            len: self.len,
            op_flags: spec_splice_flags(self.flags, self.fd_in),
            user_data: 0,
            extra: sqe_extra { buf_info: 0u16, personality: 0, splice_fd_in: self.fd_in.spec_raw() },
        }
    }

    fn prep_sqe(self, sqe: &mut SubmissionQueueEvent) {
        sqe.set_raw(io_uring_sqe {
            opcode: Self::OPCODE,
            flags: fixed_file(&self.fd_out),
            ioprio: 0u16,
            fd: self.fd_out.into_raw(),
            off_addr2: 0u64,
            addr_splice: 0u64,
            len: self.len,
            op_flags: splice_flags(self.flags, &self.fd_in),
            user_data: 0,
            extra: sqe_extra { buf_info: 0u16, personality: 0, splice_fd_in: self.fd_in.into_raw() },
        });
    }
}

/// Equivalent to performing `register_files_update` for the uring but in an
/// async fashion.
#[derive(Copy, Clone, Debug)]
pub struct FilesUpdate {
    pub fds: u64,
    pub len: u32,
    pub offset: u32,
}

impl FilesUpdate {
    pub const OPCODE: u8 = IORING_OP_FILES_UPDATE;

    #[inline]
    pub fn new(fds: u64, len: u32) -> (r: Self)
        ensures
            r.fds == fds,
            r.len == len,
            r.offset == 0,
    {
        Self { fds, len, offset: 0 }
    }

    #[inline]
    pub fn offset(self, value: u32) -> (r: Self)
        ensures
            r == (Self { offset: value, ..self }),
    {
        Self { offset: value, ..self }
    }

}

impl Prepare for FilesUpdate {
    type Return = ();

    open spec fn spec_opcode() -> u8 {
        Self::OPCODE
    }

    proof fn lemma_opcode(&self) {
    }

    open spec fn spec_sqe(&self) -> io_uring_sqe {
        io_uring_sqe {
            opcode: Self::OPCODE,
            flags: 0u8,
            ioprio: 0u16,
            fd: -1i32,
            off_addr2: self.offset as u64,
            addr_splice: self.fds,
            len: self.len,
            op_flags: 0u32,
            user_data: 0,
            extra: sqe_extra { buf_info: 0u16, personality: 0, splice_fd_in: 0i32 },
        }
    }

    fn prep_sqe(self, sqe: &mut SubmissionQueueEvent) {
        sqe.set_raw(io_uring_sqe {
            opcode: Self::OPCODE,
            flags: 0u8,
            ioprio: 0u16,
            fd: -1i32,
            off_addr2: self.offset as u64,
            addr_splice: self.fds,
            len: self.len,
            op_flags: 0u32,
            user_data: 0,
            extra: sqe_extra { buf_info: 0u16, personality: 0, splice_fd_in: 0i32 },
        });
    }
}

/// Registers a group of buffers to be used by commands that read or receive
/// data.
///
/// Buffers are grouped by the group ID, and each buffer within a group is
/// identical in size. When a file or socket is ready to read, the kernel
/// selects a buffer of the group for the operation. Available since 5.7.
#[derive(Copy, Clone, Debug)]
pub struct ProvideBuffers {
    pub addr: u64,
    pub len: u32,
    pub nbufs: u16,
    pub buf_group: u16,
    pub buf_id: u16,
}

impl ProvideBuffers {
    pub const OPCODE: u8 = IORING_OP_PROVIDE_BUFFERS;

    #[inline]
    pub fn new(addr: u64, len: u32, nbufs: u16, buf_group: u16, buf_id: u16) -> (r: Self)
        ensures
            r.addr == addr,
            r.len == len,
            r.nbufs == nbufs,
            r.buf_group == buf_group,
            r.buf_id == buf_id,
    {
        Self { addr, len, nbufs, buf_group, buf_id }
    }

}

impl Prepare for ProvideBuffers {
    type Return = ();

    open spec fn spec_opcode() -> u8 {
        Self::OPCODE
    }

    proof fn lemma_opcode(&self) {
    }

    open spec fn spec_sqe(&self) -> io_uring_sqe {
        io_uring_sqe {
            opcode: Self::OPCODE,
            flags: 0u8,
            ioprio: 0u16,
            fd: self.nbufs as i32,
            off_addr2: self.buf_id as u64,
            addr_splice: self.addr,
            len: self.len,
            op_flags: 0u32,
            user_data: 0,
            extra: sqe_extra { buf_info: self.buf_group, personality: 0, splice_fd_in: 0i32 },
        }
    }

    fn prep_sqe(self, sqe: &mut SubmissionQueueEvent) {
        sqe.set_raw(io_uring_sqe {
            opcode: Self::OPCODE,
            flags: 0u8,
            ioprio: 0u16,
            fd: self.nbufs as i32,
            off_addr2: self.buf_id as u64,
            addr_splice: self.addr,
            len: self.len,
            op_flags: 0u32,
            user_data: 0,
            extra: sqe_extra { buf_info: self.buf_group, personality: 0, splice_fd_in: 0i32 },
        });
    }
}

/// Remove buffers previously registered with `ProvideBuffers`.
#[derive(Copy, Clone, Debug)]
pub struct RemoveBuffers {
    pub nbufs: u16,
    pub buf_group: u16,
}

impl RemoveBuffers {
    pub const OPCODE: u8 = IORING_OP_REMOVE_BUFFERS;

    #[inline]
    pub fn new(nbufs: u16, buf_group: u16) -> (r: Self)
        ensures
            r.nbufs == nbufs,
            r.buf_group == buf_group,
    {
        Self { nbufs, buf_group }
    }

}

impl Prepare for RemoveBuffers {
    type Return = ();

    open spec fn spec_opcode() -> u8 {
        Self::OPCODE
    }

    proof fn lemma_opcode(&self) {
    }

    open spec fn spec_sqe(&self) -> io_uring_sqe {
        io_uring_sqe {
            opcode: Self::OPCODE,
            flags: 0u8,
            ioprio: 0u16,
            fd: self.nbufs as i32,
            off_addr2: 0u64,
            addr_splice: 0u64,
            len: 0u32,
            op_flags: 0u32,
            user_data: 0,
            extra: sqe_extra { buf_info: self.buf_group, personality: 0, splice_fd_in: 0i32 },
        }
    }

    fn prep_sqe(self, sqe: &mut SubmissionQueueEvent) {
        sqe.set_raw(io_uring_sqe {
            opcode: Self::OPCODE,
            flags: 0u8,
            ioprio: 0u16,
            fd: self.nbufs as i32,
            off_addr2: 0u64,
            addr_splice: 0u64,
            len: 0u32,
            op_flags: 0u32,
            user_data: 0,
            extra: sqe_extra { buf_info: self.buf_group, personality: 0, splice_fd_in: 0i32 },
        });
    }
}

/// Whatever operation fills in an entry, the entry carries that kind of
/// operation's own opcode, so the kernel performs the operation asked for.
pub proof fn law_entry_opcode<S: Prepare>(s: &S)
    ensures
        s.spec_sqe().opcode == S::spec_opcode(),
{
    s.lemma_opcode();
}

/// The opcode each kind of operation hands the kernel.
pub proof fn law_opcode_table()
    ensures
        Nop::spec_opcode() == IORING_OP_NOP,
        ReadVectored::spec_opcode() == IORING_OP_READV,
        WriteVectored::spec_opcode() == IORING_OP_WRITEV,
        ReadFixed::spec_opcode() == IORING_OP_READ_FIXED,
        WriteFixed::spec_opcode() == IORING_OP_WRITE_FIXED,
        PollAdd::spec_opcode() == IORING_OP_POLL_ADD,
        PollRemove::spec_opcode() == IORING_OP_POLL_REMOVE,
        SyncFileRange::spec_opcode() == IORING_OP_SYNC_FILE_RANGE,
        SendMsg::spec_opcode() == IORING_OP_SENDMSG,
        RecvMsg::spec_opcode() == IORING_OP_RECVMSG,
        Timeout::spec_opcode() == IORING_OP_TIMEOUT,
        TimeoutRemove::spec_opcode() == IORING_OP_TIMEOUT_REMOVE,
        Accept::spec_opcode() == IORING_OP_ACCEPT,
        AsyncCancel::spec_opcode() == IORING_OP_ASYNC_CANCEL,
        LinkTimeout::spec_opcode() == IORING_OP_LINK_TIMEOUT,
        Connect::spec_opcode() == IORING_OP_CONNECT,
        Fallocate::spec_opcode() == IORING_OP_FALLOCATE,
        Fadvise::spec_opcode() == IORING_OP_FADVISE,
        Madvise::spec_opcode() == IORING_OP_MADVISE,
        OpenAt::spec_opcode() == IORING_OP_OPENAT,
        OpenAt2::spec_opcode() == IORING_OP_OPENAT2,
        Close::spec_opcode() == IORING_OP_CLOSE,
        Statx::spec_opcode() == IORING_OP_STATX,
        Read::spec_opcode() == IORING_OP_READ,
        Write::spec_opcode() == IORING_OP_WRITE,
        Send::spec_opcode() == IORING_OP_SEND,
        Recv::spec_opcode() == IORING_OP_RECV,
        EpollCtl::spec_opcode() == IORING_OP_EPOLL_CTL,
        Splice::spec_opcode() == IORING_OP_SPLICE,
        Tee::spec_opcode() == IORING_OP_TEE,
        FilesUpdate::spec_opcode() == IORING_OP_FILES_UPDATE,
        ProvideBuffers::spec_opcode() == IORING_OP_PROVIDE_BUFFERS,
        RemoveBuffers::spec_opcode() == IORING_OP_REMOVE_BUFFERS,
{
}

} // verus!
