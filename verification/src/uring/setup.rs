use vstd::prelude::*;
use crate::uring::flags::{Features, SetupFlags};
use crate::uring::raw::{io_cqring_offsets, io_sqring_offsets, io_uring_params};

verus! {

/// Size of one entry of the submission ring's indirection array.
pub const SQ_ARRAY_ENTRY_SIZE: usize = 4;

/// Size of one completion queue entry.
pub const CQE_SIZE: usize = 16;

/// Size of one submission queue entry.
pub const SQE_SIZE: usize = 64;

/// Parameters for setting up an io_uring instance.
#[derive(Copy, Clone, Debug, Default)]
#[non_exhaustive]
pub struct UringParams {
    pub flags: SetupFlags,
    pub cq_entries: u32,
    pub sq_thread_cpu: u32,
    pub sq_thread_idle: u32,
}

impl UringParams {
    /// Parameters with the given setup flags and everything else zero.
    pub fn with_flags(flags: SetupFlags) -> (r: Self)
        ensures
            r.flags == flags,
            r.cq_entries == 0,
            r.sq_thread_cpu == 0,
            r.sq_thread_idle == 0,
    {
        UringParams { flags, cq_entries: 0, sq_thread_cpu: 0, sq_thread_idle: 0 }
    }

    /// The `io_uring_params` handed to the kernel: these fields, all others
    /// zero.
    pub fn to_raw(&self) -> (p: io_uring_params)
        ensures
            p.flags == self.flags@,
            p.cq_entries == self.cq_entries,
            p.sq_thread_cpu == self.sq_thread_cpu,
            p.sq_thread_idle == self.sq_thread_idle,
            p.sq_entries == 0,
            p.features == 0,
            p.wq_fd == 0,
            p.resv@ == seq![0u32, 0u32, 0u32],
            p.sq_off == (io_sqring_offsets {
                head: 0,
                tail: 0,
                ring_mask: 0,
                ring_entries: 0,
                flags: 0,
                dropped: 0,
                array: 0,
                resv1: 0,
                resv2: 0,
            }),
            p.cq_off == (io_cqring_offsets {
                head: 0,
                tail: 0,
                ring_mask: 0,
                ring_entries: 0,
                overflow: 0,
                cqes: 0,
                flags: 0,
                resv1: 0,
                resv2: 0,
            }),
    {
        io_uring_params {
            sq_entries: 0,
            cq_entries: self.cq_entries,
            flags: self.flags.bits(),
            sq_thread_cpu: self.sq_thread_cpu,
            sq_thread_idle: self.sq_thread_idle,
            features: 0,
            wq_fd: 0,
            resv: [0, 0, 0],
            sq_off: io_sqring_offsets {
                head: 0,
                tail: 0,
                ring_mask: 0,
                ring_entries: 0,
                flags: 0,
                dropped: 0,
                array: 0,
                resv1: 0,
                resv2: 0,
            },
            cq_off: io_cqring_offsets {
                head: 0,
                tail: 0,
                ring_mask: 0,
                ring_entries: 0,
                overflow: 0,
                cqes: 0,
                flags: 0,
                resv1: 0,
                resv2: 0,
            },
        }
    }
}

/// The sizes to map for the submission and completion rings: each ring's
/// entries past its offsets, and with a single mapping both the larger of
/// the two.
pub open spec fn spec_ring_sizes(p: io_uring_params) -> (int, int) {
    let sq = p.sq_off.array + p.sq_entries * SQ_ARRAY_ENTRY_SIZE;
    let cq = p.cq_off.cqes + p.cq_entries * CQE_SIZE;
    if p.features & Features::SINGLE_MMAP == Features::SINGLE_MMAP {
        let m = if sq > cq {
            sq
        } else {
            cq
        };
        (m, m)
    } else {
        (sq, cq)
    }
}

/// Whether the kernel maps both rings with one mapping.
pub fn single_mmap(p: &io_uring_params) -> (r: bool)
    ensures
        r == (p.features & Features::SINGLE_MMAP == Features::SINGLE_MMAP),
{
    let features = Features::from_bits_truncate(p.features);
    proof {
        let f = p.features;
        assert((f & 31u32) & 1u32 == 1u32 <==> f & 1u32 == 1u32) by (bit_vector);
    }
    features.contains(Features::from_bits_retain(Features::SINGLE_MMAP))
}

/// The sizes to map for the submission and completion rings.
pub fn ring_sizes(p: &io_uring_params) -> (r: (usize, usize))
    requires
        p.sq_off.array + p.sq_entries * SQ_ARRAY_ENTRY_SIZE <= usize::MAX,
        p.cq_off.cqes + p.cq_entries * CQE_SIZE <= usize::MAX,
    ensures
        (r.0 as int, r.1 as int) == spec_ring_sizes(*p),
{
    let mut sq_ring_sz = p.sq_off.array as usize + p.sq_entries as usize * SQ_ARRAY_ENTRY_SIZE;
    let mut cq_ring_sz = p.cq_off.cqes as usize + p.cq_entries as usize * CQE_SIZE;
    if single_mmap(p) {
        let m = if sq_ring_sz > cq_ring_sz {
            sq_ring_sz
        } else {
            cq_ring_sz
        };
        sq_ring_sz = m;
        cq_ring_sz = m;
    }
    (sq_ring_sz, cq_ring_sz)
}

/// The size to map for the submission queue entries.
pub fn sqes_size(sq_entries: u32) -> (r: usize)
    requires
        sq_entries * SQE_SIZE <= usize::MAX,
    ensures
        r == sq_entries * SQE_SIZE,
{
    sq_entries as usize * SQE_SIZE
}

/// With the single-mapping feature both rings share one mapping, which must
/// hold either ring: both sizes are the larger of the two rings' extents.
/// Without it each ring is mapped to its own extent.
pub proof fn law_ring_sizes_cover_rings(p: io_uring_params)
    ensures
        ({
            let sq = p.sq_off.array + p.sq_entries * SQ_ARRAY_ENTRY_SIZE;
            let cq = p.cq_off.cqes + p.cq_entries * CQE_SIZE;
            let r = spec_ring_sizes(p);
            &&& p.features & Features::SINGLE_MMAP != 0 ==> r.0 == r.1 && r.0 >= sq && r.0 >= cq
                && (r.0 == sq || r.0 == cq)
            &&& p.features & Features::SINGLE_MMAP == 0 ==> r.0 == sq && r.1 == cq
        }),
{
    let f = p.features;
    assert(f & 1u32 != 0u32 <==> f & 1u32 == 1u32) by (bit_vector);
}

/// The ring sizes depend on the single-mapping feature bit alone: two
/// parameter sets that differ only in other feature bits give the same
/// sizes.
pub proof fn law_ring_sizes_other_features(p: io_uring_params, q: io_uring_params)
    requires
        p.sq_entries == q.sq_entries,
        p.cq_entries == q.cq_entries,
        p.sq_off == q.sq_off,
        p.cq_off == q.cq_off,
        p.features & Features::SINGLE_MMAP == q.features & Features::SINGLE_MMAP,
    ensures
        spec_ring_sizes(p) == spec_ring_sizes(q),
{
}

} // verus!
