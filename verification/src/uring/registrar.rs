use vstd::prelude::*;
use crate::uring::flags::ProbeOpFlags;
use crate::uring::raw::{io_uring_probe, io_uring_probe_op, IORING_OP_LAST};
use crate::uring::sqe_types::RawFd;

verus! {

/// An update of registered files: `fds` replace the registered files
/// starting at `offset`.
#[derive(Copy, Clone)]
pub struct FileUpdate<'fd> {
    pub offset: u32,
    pub fds: &'fd [RawFd],
}

impl<'fd> FileUpdate<'fd> {
    pub fn new(offset: u32, fds: &'fd [RawFd]) -> (r: Self)
        ensures
            r.offset == offset,
            r.fds@ == fds@,
    {
        Self { offset, fds }
    }
}

/// One operation reported by a probe.
#[derive(Copy, Clone)]
pub struct ProbeOp {
    op: io_uring_probe_op,
}

impl View for ProbeOp {
    type V = io_uring_probe_op;

    closed spec fn view(&self) -> io_uring_probe_op {
        self.op
    }
}

impl ProbeOp {
    pub fn from_raw(op: io_uring_probe_op) -> (r: Self)
        ensures
            r@ == op,
    {
        Self { op }
    }

    pub fn into_raw(self) -> (r: io_uring_probe_op)
        ensures
            r == self@,
    {
        self.op
    }

    pub fn raw(&self) -> (r: &io_uring_probe_op)
        ensures
            *r == self@,
    {
        &self.op
    }

    pub fn raw_mut(&mut self) -> (r: &mut io_uring_probe_op)
        ensures
            *r == old(self)@,
            final(self)@ == *final(r),
    {
        &mut self.op
    }

    /// The operation's opcode.
    pub fn op(&self) -> (r: u8)
        ensures
            r == self@.op,
    {
        self.op.op
    }

    /// The operation's flags, all bits kept.
    pub fn flags(&self) -> (r: ProbeOpFlags)
        ensures
            r@ == self@.flags,
    {
        ProbeOpFlags::from_bits_retain(self.op.flags)
    }
}

/// The operations the kernel supports, as reported by a probe.
pub struct Probe {
    probe: io_uring_probe,
    ops: Vec<ProbeOp>,
}

impl Probe {
    /// Room for one entry per known operation.
    pub const NUM_OPS: usize = IORING_OP_LAST as usize;

    pub closed spec fn header(&self) -> io_uring_probe {
        self.probe
    }

    /// The operation entries the kernel filled in.
    pub closed spec fn entries(&self) -> Seq<ProbeOp> {
        self.ops@
    }

    /// A probe result from its header and its operation entries.
    pub fn from_parts(probe: io_uring_probe, ops: Vec<ProbeOp>) -> (r: Self)
        ensures
            r.header() == probe,
            r.entries() == ops@,
    {
        Self { probe, ops }
    }

    /// The last opcode the kernel knows.
    pub fn last_op(&self) -> (r: u8)
        ensures
            r == self.header().last_op,
    {
        self.probe.last_op
    }

    /// The `ops_len` operations the kernel reported (as many of them as
    /// were handed over).
    pub fn ops(&self) -> (r: &[ProbeOp])
        ensures
            r@ == self.entries().subrange(
                0,
                if (self.header().ops_len as int) < self.entries().len() {
                    self.header().ops_len as int
                } else {
                    self.entries().len() as int
                },
            ),
    {
        let n = if (self.probe.ops_len as usize) < self.ops.len() {
            self.probe.ops_len as usize
        } else {
            self.ops.len()
        };
        vstd::slice::slice_subrange(self.ops.as_slice(), 0, n)
    }
}

impl Probe {
    /// How many operation entries the kernel reported and were handed over.
    pub open spec fn spec_ops_len(&self) -> int {
        if (self.header().ops_len as int) < self.entries().len() {
            self.header().ops_len as int
        } else {
            self.entries().len() as int
        }
    }

    /// Mutable access to the reported operations.
    pub fn ops_mut(&mut self) -> (r: &mut [ProbeOp])
        ensures
            r@ == old(self).entries().subrange(0, old(self).spec_ops_len()),
            final(self).header() == old(self).header(),
            final(self).entries() == final(r)@ + old(self).entries().subrange(
                old(self).spec_ops_len(),
                old(self).entries().len() as int,
            ),
    {
        let n = if (self.probe.ops_len as usize) < self.ops.len() {
            self.probe.ops_len as usize
        } else {
            self.ops.len()
        };
        let (head, _rest) = self.ops.as_mut_slice().split_at_mut(n);
        head
    }
}

/// The name of an operation, `"unknown"` for opcodes past the known ones.
pub open spec fn spec_op_name(op: u8) -> Seq<char> {
    if op == 0 {
        "nop"@
    } else if op == 1 {
        "readv"@
    } else if op == 2 {
        "writev"@
    } else if op == 3 {
        "fsync"@
    } else if op == 4 {
        "read_fixed"@
    } else if op == 5 {
        "write_fixed"@
    } else if op == 6 {
        "poll_add"@
    } else if op == 7 {
        "poll_remove"@
    } else if op == 8 {
        "sync_file_range"@
    } else if op == 9 {
        "sendmsg"@
    } else if op == 10 {
        "recvmsg"@
    } else if op == 11 {
        "timeout"@
    } else if op == 12 {
        "timeout_remove"@
    } else if op == 13 {
        "accept"@
    } else if op == 14 {
        "async_cancel"@
    } else if op == 15 {
        "link_timeout"@
    } else if op == 16 {
        "connect"@
    } else if op == 17 {
        "fallocate"@
    } else if op == 18 {
        "openat"@
    } else if op == 19 {
        "close"@
    } else if op == 20 {
        "files_update"@
    } else if op == 21 {
        "statx"@
    } else if op == 22 {
        "read"@
    } else if op == 23 {
        "write"@
    } else if op == 24 {
        "fadvise"@
    } else if op == 25 {
        "madvise"@
    } else if op == 26 {
        "send"@
    } else if op == 27 {
        "recv"@
    } else if op == 28 {
        "openat2"@
    } else if op == 29 {
        "epoll_ctl"@
    } else if op == 30 {
        "splice"@
    } else if op == 31 {
        "provide_buffers"@
    } else if op == 32 {
        "remove_buffers"@
    } else if op == 33 {
        "tee"@
    } else {
        "unknown"@
    }
}

/// The name of an operation, `"unknown"` for opcodes past the known ones.
pub fn op_name(op: u8) -> (r: &'static str)
    ensures
        r@ == spec_op_name(op),
{
    match op {
        0 => "nop",
        1 => "readv",
        2 => "writev",
        3 => "fsync",
        4 => "read_fixed",
        5 => "write_fixed",
        6 => "poll_add",
        7 => "poll_remove",
        8 => "sync_file_range",
        9 => "sendmsg",
        10 => "recvmsg",
        11 => "timeout",
        12 => "timeout_remove",
        13 => "accept",
        14 => "async_cancel",
        15 => "link_timeout",
        16 => "connect",
        17 => "fallocate",
        18 => "openat",
        19 => "close",
        20 => "files_update",
        21 => "statx",
        22 => "read",
        23 => "write",
        24 => "fadvise",
        25 => "madvise",
        26 => "send",
        27 => "recv",
        28 => "openat2",
        29 => "epoll_ctl",
        30 => "splice",
        31 => "provide_buffers",
        32 => "remove_buffers",
        33 => "tee",
        _ => "unknown",
    }
}

} // verus!
