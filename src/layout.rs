//! How the rings are laid out in the memory mapped from the kernel.
use vstd::prelude::*;
use crate::params::{Params, FEAT_SINGLE_MMAP};

verus! {

/// Mapping offset of the submission ring (and of the combined ring).
pub const OFF_SQ_RING: u64 = 0;
/// Mapping offset of the completion ring.
pub const OFF_CQ_RING: u64 = 0x800_0000;
/// Mapping offset of the submission entry array.
pub const OFF_SQES: u64 = 0x1000_0000;

/// Relies on `linux_io_uring_sys::io_uring_sqe`: a submission entry takes 64 bytes.
#[verifier::external_body]
fn sqe_size() -> (r: u64)
    ensures
        r == 64,
{
    std::mem::size_of::<linux_io_uring_sys::io_uring_sqe>() as u64
}

/// Relies on `linux_io_uring_sys::io_uring_cqe`: a completion entry takes 16 bytes.
#[verifier::external_body]
fn cqe_size() -> (r: u64)
    ensures
        r == 16,
{
    std::mem::size_of::<linux_io_uring_sys::io_uring_cqe>() as u64
}

/// One span to map: the kernel's offset for it and its length in bytes.
#[derive(Clone, Copy, Debug, PartialEq, Eq, Structural)]
pub struct Region {
    pub offset: u64,
    pub len: u64,
}

/// The byte lengths of the rings and whether they share one mapping.
#[derive(Clone, Copy, Debug, PartialEq, Eq, Structural)]
pub struct MemoryLayout {
    pub sq_ring_len: u64,
    pub cq_ring_len: u64,
    pub sqe_len: u64,
    pub single_mmap: bool,
}

/// The submission ring ends with its index array of `u32`s.
pub open spec fn sq_ring_len(p: Params) -> int {
    p.sq_off.array + p.sq_entries * 4
}

/// The completion ring ends with its entries.
pub open spec fn cq_ring_len(p: Params) -> int {
    p.cq_off.cqes + p.cq_entries * 16
}

pub open spec fn max(a: u64, b: u64) -> u64 {
    if a >= b { a } else { b }
}

impl MemoryLayout {
    /// The layout that negotiated parameters call for.
    pub fn of(p: &Params) -> (r: MemoryLayout)
        ensures
            r.sq_ring_len == sq_ring_len(*p),
            r.cq_ring_len == cq_ring_len(*p),
            r.sqe_len == p.sq_entries * 64,
            r.single_mmap == (p.features & FEAT_SINGLE_MMAP != 0),
    {
        let entry_array_len = p.sq_entries as u64 * 4;
        MemoryLayout {
            sq_ring_len: p.sq_off.array as u64 + entry_array_len,
            cq_ring_len: p.cq_off.cqes as u64 + p.cq_entries as u64 * cqe_size(),
            sqe_len: p.sq_entries as u64 * sqe_size(),
            single_mmap: p.features & FEAT_SINGLE_MMAP != 0,
        }
    }

    /// The spans to map, in order.
    pub open spec fn regions_spec(self) -> Seq<Region> {
        if self.single_mmap {
            seq![
                Region { offset: OFF_SQES, len: self.sqe_len },
                Region { offset: OFF_SQ_RING, len: max(self.sq_ring_len, self.cq_ring_len) },
            ]
        } else {
            seq![
                Region { offset: OFF_SQES, len: self.sqe_len },
                Region { offset: OFF_SQ_RING, len: self.sq_ring_len },
                Region { offset: OFF_CQ_RING, len: self.cq_ring_len },
            ]
        }
    }

    /// The spans to map: the entry array, then either one region holding both
    /// rings, sized for the larger, or one region for each ring.
    pub fn regions(&self) -> (r: Vec<Region>)
        ensures
            r@ == self.regions_spec(),
    {
        let mut r: Vec<Region> = Vec::new();
        r.push(Region { offset: OFF_SQES, len: self.sqe_len });
        if self.single_mmap {
            let len = if self.sq_ring_len >= self.cq_ring_len { self.sq_ring_len } else { self.cq_ring_len };
            r.push(Region { offset: OFF_SQ_RING, len });
        } else {
            r.push(Region { offset: OFF_SQ_RING, len: self.sq_ring_len });
            r.push(Region { offset: OFF_CQ_RING, len: self.cq_ring_len });
        }
        assert(r@ =~= self.regions_spec());
        r
    }
}

} // verus!
