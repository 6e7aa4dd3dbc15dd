use vstd::prelude::*;
use crate::uring::flags::CompletionFlags;
use crate::uring::raw::io_uring_cqe;

verus! {

/// The id of the buffer the kernel picked for a completion, if it picked
/// one: the upper half of the flags, when the buffer flag is set.
pub open spec fn spec_buf_id(cqe: io_uring_cqe) -> Option<u16> {
    if cqe.flags & CompletionFlags::BUFFER == CompletionFlags::BUFFER {
        Some((cqe.flags >> 16u32) as u16)
    } else {
        None
    }
}

/// A completion queue entry.
#[derive(Copy, Clone)]
pub struct CompletionQueueEvent {
    cqe: io_uring_cqe,
}

impl View for CompletionQueueEvent {
    type V = io_uring_cqe;

    closed spec fn view(&self) -> io_uring_cqe {
        self.cqe
    }
}

impl CompletionQueueEvent {
    pub fn from_raw(cqe: io_uring_cqe) -> (r: Self)
        ensures
            r@ == cqe,
    {
        Self { cqe }
    }

    pub fn into_raw(self) -> (r: io_uring_cqe)
        ensures
            r == self@,
    {
        self.cqe
    }

    pub fn raw(&self) -> (r: &io_uring_cqe)
        ensures
            *r == self@,
    {
        &self.cqe
    }

    pub fn raw_mut(&mut self) -> (r: &mut io_uring_cqe)
        ensures
            *r == old(self)@,
            final(self)@ == *final(r),
    {
        &mut self.cqe
    }

    /// The user data of the submission this completes.
    pub fn user_data(&self) -> (r: u64)
        ensures
            r == self@.user_data,
    {
        self.cqe.user_data
    }

    /// The id of the buffer the kernel picked, if it picked one.
    pub fn buf_id(&self) -> (r: Option<u16>)
        ensures
            r == spec_buf_id(self@),
    {
        self.flags().buf_id()
    }

    /// The result: the non-negative count it carries, or the error whose
    /// negated code it carries.
    pub fn result(&self) -> (r: Result<usize, std::io::Error>)
        requires
            self@.res != i32::MIN,
        ensures
            r is Ok <==> self@.res >= 0,
            r matches Ok(n) ==> n == self@.res,
    {
        let res = self.cqe.res;
        if res < 0 {
            Err(crate::error::os_error(-res))
        } else {
            Ok(res as usize)
        }
    }

    /// The raw result field.
    pub fn result_raw(&self) -> (r: i32)
        ensures
            r == self@.res,
    {
        self.cqe.res
    }

    /// The flags, all bits kept.
    pub fn flags(&self) -> (r: CompletionFlags)
        ensures
            r@ == self@.flags,
    {
        CompletionFlags::from_bits_retain(self.cqe.flags)
    }
}

/// Whether the consumer's head counter is below the kernel's tail counter.
/// The two are compared as plain numbers, so once the tail counter has
/// wrapped past `u32::MAX` while the head has not, entries that are still
/// unconsumed are not reported.
pub fn has_next(head: u32, tail: u32) -> (r: bool)
    ensures
        r == (head < tail),
{
    head < tail
}

/// The window of the completion ring that holds unconsumed entries: where
/// it starts in the ring and how many entries it holds. The head and tail
/// are free-running counters, so the count is their difference modulo 2^32.
pub fn completion_window(head: u32, tail: u32, mask: u32) -> (r: (usize, usize))
    ensures
        r.0 == head & mask,
        r.1 == vstd::wrapping::u32_specs::wrapping_sub(tail, head),
        head <= tail ==> r.1 == tail - head,
{
    ((head & mask) as usize, tail.wrapping_sub(head) as usize)
}

} // verus!
