use vstd::prelude::*;
use crate::uring::flags::{EnterFlags, SetupFlags, SubmissionFlags};
use crate::uring::raw::{io_uring_sqe, sqe_extra, zeroed_sqe, IORING_SQ_NEED_WAKEUP};
use crate::uring::sqe_types::Prepare;

verus! {

/// A submission queue entry.
pub struct SubmissionQueueEvent {
    sqe: io_uring_sqe,
}

impl View for SubmissionQueueEvent {
    type V = io_uring_sqe;

    closed spec fn view(&self) -> io_uring_sqe {
        self.sqe
    }
}

impl SubmissionQueueEvent {
    #[inline]
    pub fn user_data(&self) -> (r: u64)
        ensures
            r == self@.user_data,
    {
        self.sqe.user_data
    }

    #[inline]
    pub fn set_user_data(&mut self, user_data: u64)
        ensures
            final(self)@ == (io_uring_sqe { user_data, ..old(self)@ }),
    {
        self.sqe.user_data = user_data;
    }

    /// The flags, all bits kept.
    #[inline]
    pub fn flags(&self) -> (r: SubmissionFlags)
        ensures
            r@ == self@.flags,
    {
        SubmissionFlags::from_bits_retain(self.sqe.flags)
    }

    #[inline]
    pub fn set_flags(&mut self, flags: SubmissionFlags)
        ensures
            final(self)@ == (io_uring_sqe { flags: flags@, ..old(self)@ }),
    {
        self.sqe.flags = flags.bits();
    }

    #[inline]
    pub fn add_flags(&mut self, flags: SubmissionFlags)
        ensures
            final(self)@ == (io_uring_sqe { flags: old(self)@.flags | flags@, ..old(self)@ }),
    {
        self.sqe.flags = self.sqe.flags | flags.bits();
    }

    /// The buffer group the kernel picks a buffer from.
    #[inline]
    pub fn buf_group(&mut self) -> (r: u16)
        ensures
            r == old(self)@.extra.buf_info,
            final(self)@ == old(self)@,
    {
        self.sqe.extra.buf_info
    }

    #[inline]
    pub fn set_buf_group(&mut self, buf_group: u16)
        ensures
            final(self)@ == (io_uring_sqe {
                extra: sqe_extra { buf_info: buf_group, ..old(self)@.extra },
                ..old(self)@
            }),
    {
        self.sqe.extra.buf_info = buf_group;
    }

    /// Resets every field to zero.
    #[inline]
    pub fn clear(&mut self)
        ensures
            final(self)@ == zeroed_sqe(),
    {
        self.sqe = io_uring_sqe::zeroed();
    }

    #[inline]
    pub fn into_raw(self) -> (r: io_uring_sqe)
        ensures
            r == self@,
    {
        self.sqe
    }

    #[inline]
    pub fn from_raw(sqe: io_uring_sqe) -> (r: Self)
        ensures
            r@ == sqe,
    {
        Self { sqe }
    }

    #[inline]
    pub fn raw(&self) -> (r: &io_uring_sqe)
        ensures
            *r == self@,
    {
        &self.sqe
    }

    /// Replaces the whole entry.
    #[inline]
    pub fn set_raw(&mut self, sqe: io_uring_sqe)
        ensures
            final(self)@ == sqe,
    {
        self.sqe = sqe;
    }

    #[inline]
    pub fn raw_mut(&mut self) -> (r: &mut io_uring_sqe)
        ensures
            *r == old(self)@,
            final(self)@ == *final(r),
    {
        &mut self.sqe
    }

    /// Fills in the entry for the operation `sqe` describes.
    #[inline]
    pub fn prepare<S: Prepare>(&mut self, sqe: S)
        ensures
            final(self)@ == sqe.spec_sqe(),
    {
        sqe.prep_sqe(self);
    }
}

/// Computes the smallest `v >= 1` such that `(b + v) & mask == a & mask`:
/// the distance from `b` forward to `a` around a ring of `mask + 1` slots,
/// a full turn when they meet.
pub fn wrapping_dist(a: u32, b: u32, mask: u32) -> (r: u32)
    requires
        mask < u32::MAX,
    ensures
        r == (if a & mask == b & mask {
            (mask + 1) as u32
        } else {
            vstd::wrapping::u32_specs::wrapping_sub(a & mask, b & mask) & mask
        }),
{
    let size = mask + 1;
    let a = a & mask;
    let b = b & mask;
    if a == b {
        return size;
    }
    a.wrapping_sub(b) & mask
}

/// The number of free entries of a submission ring of `entries` slots
/// whose consumer is at `head` and producer at `tail`: the slots not
/// holding an entry queued for the kernel. The positions are free-running
/// counters, so the queued count is their difference modulo 2^32; the
/// kernel never lets it exceed `entries`, and if it did none would be free.
pub fn free_sqes(head: u32, tail: u32, entries: u32) -> (r: u32)
    ensures
        vstd::wrapping::u32_specs::wrapping_sub(tail, head) <= entries ==> r == entries
            - vstd::wrapping::u32_specs::wrapping_sub(tail, head),
        vstd::wrapping::u32_specs::wrapping_sub(tail, head) > entries ==> r == 0,
{
    let used = tail.wrapping_sub(head);
    if used > entries {
        0
    } else {
        entries - used
    }
}

/// Stepping `wrapping_dist(a, b, mask)` slots forward from `b` around a
/// ring whose size `mask + 1` is a power of two lands on the slot of `a`,
/// after at least one and at most a full turn of steps.
pub proof fn lemma_wrapping_dist_lands(a: u32, b: u32, mask: u32, r: u32)
    requires
        mask < u32::MAX,
        mask & ((mask + 1) as u32) == 0,
        r == (if a & mask == b & mask {
            (mask + 1) as u32
        } else {
            vstd::wrapping::u32_specs::wrapping_sub(a & mask, b & mask) & mask
        }),
    ensures
        1 <= r <= mask + 1,
        ((b + r) as u32) & mask == a & mask,
{
    let d = vstd::wrapping::u32_specs::wrapping_sub(a & mask, b & mask);
    assert(d == (((a & mask) - (b & mask)) as u32)) by (bit_vector)
        requires
            d == (if (a & mask) - (b & mask) < 0 {
                ((a & mask) - (b & mask) + 0x1_0000_0000) as u32
            } else {
                ((a & mask) - (b & mask)) as u32
            }),
    ;
    if a & mask == b & mask {
        assert(((b + ((mask + 1) as u32)) as u32) & mask == b & mask) by (bit_vector)
            requires
                mask < 0xffff_ffffu32,
                mask & ((mask + 1) as u32) == 0,
        ;
    } else {
        assert(((b + ((((a & mask) - (b & mask)) as u32) & mask)) as u32) & mask == a & mask
            && 1 <= ((((a & mask) - (b & mask)) as u32) & mask) <= mask) by (bit_vector)
            requires
                mask < 0xffff_ffffu32,
                mask & ((mask + 1) as u32) == 0,
                a & mask != b & mask,
        ;
    }
}

/// No smaller positive number of steps than `wrapping_dist(a, b, mask)`
/// takes `b` to the slot of `a` on such a ring.
pub proof fn lemma_wrapping_dist_minimal(a: u32, b: u32, mask: u32, r: u32, v: u32)
    requires
        mask < u32::MAX,
        mask & ((mask + 1) as u32) == 0,
        r == (if a & mask == b & mask {
            (mask + 1) as u32
        } else {
            vstd::wrapping::u32_specs::wrapping_sub(a & mask, b & mask) & mask
        }),
        1 <= v < r,
    ensures
        ((b + v) as u32) & mask != a & mask,
{
    let d = vstd::wrapping::u32_specs::wrapping_sub(a & mask, b & mask);
    assert(d == (((a & mask) - (b & mask)) as u32)) by (bit_vector)
        requires
            d == (if (a & mask) - (b & mask) < 0 {
                ((a & mask) - (b & mask) + 0x1_0000_0000) as u32
            } else {
                ((a & mask) - (b & mask)) as u32
            }),
    ;
    if a & mask == b & mask {
        assert(((b + v) as u32) & mask != b & mask) by (bit_vector)
            requires
                mask < 0xffff_ffffu32,
                mask & ((mask + 1) as u32) == 0,
                1 <= v <= mask,
        ;
    } else {
        assert(((b + v) as u32) & mask != a & mask) by (bit_vector)
            requires
                mask < 0xffff_ffffu32,
                mask & ((mask + 1) as u32) == 0,
                1 <= v < ((((a & mask) - (b & mask)) as u32) & mask),
        ;
    }
}

/// The enter flags owed after queueing `submitted` entries, if the kernel
/// must be entered: without a polling thread only when something was
/// queued; with one only when the thread asked (`kflags`) to be woken.
pub open spec fn spec_enter_flags(setup: u32, kflags: u32, submitted: u32) -> Option<u32> {
    if setup & SetupFlags::SQPOLL != SetupFlags::SQPOLL {
        if submitted > 0 {
            Some(0)
        } else {
            None
        }
    } else if kflags & IORING_SQ_NEED_WAKEUP != 0 {
        Some(EnterFlags::SQ_WAKEUP)
    } else {
        None
    }
}

/// The flags to enter the kernel with after queueing `submitted` entries,
/// if it must be entered at all.
pub fn enter_flags(setup: SetupFlags, kflags: u32, submitted: u32) -> (r: Option<EnterFlags>)
    ensures
        r is Some <==> spec_enter_flags(setup@, kflags, submitted) is Some,
        r matches Some(f) ==> Some(f@) == spec_enter_flags(setup@, kflags, submitted),
{
    if !setup.contains(SetupFlags::from_bits_retain(SetupFlags::SQPOLL)) {
        return if submitted > 0 {
            Some(EnterFlags::empty())
        } else {
            None
        };
    }
    if kflags & IORING_SQ_NEED_WAKEUP == 0 {
        None
    } else {
        Some(EnterFlags::from_bits_retain(EnterFlags::SQ_WAKEUP))
    }
}

/// How to submit: the flags to enter the kernel with, or `None` when it
/// need not be entered. Waiting for completions always enters, asking for
/// events.
pub fn submit_plan(setup: SetupFlags, kflags: u32, submitted: u32, wait_for: u32) -> (r: Option<
    EnterFlags,
>)
    ensures
        r is Some <==> (wait_for != 0 || spec_enter_flags(setup@, kflags, submitted) is Some),
        r matches Some(f) ==> f@ == (if wait_for != 0 {
            EnterFlags::GETEVENTS
        } else {
            0u32
        }) | (match spec_enter_flags(setup@, kflags, submitted) {
            Some(e) => e,
            None => 0u32,
        }),
{
    let (mut flags, mut should_enter) = if wait_for == 0 {
        (EnterFlags::empty(), false)
    } else {
        (EnterFlags::from_bits_retain(EnterFlags::GETEVENTS), true)
    };
    if let Some(newflags) = enter_flags(setup, kflags, submitted) {
        flags = flags.union(newflags);
        should_enter = true;
    } else {
        proof {
            let g = flags@;
            assert(g | 0u32 == g) by (bit_vector);
        }
    }
    if should_enter {
        Some(flags)
    } else {
        None
    }
}

} // verus!
