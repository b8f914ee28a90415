//! The configuration record handed to the kernel at setup and filled in by it.
use vstd::prelude::*;

verus! {

/// Setup flag: busy-poll for completions.
pub const SETUP_IOPOLL: u32 = 1;
/// Setup flag: a kernel thread polls the submission ring.
pub const SETUP_SQPOLL: u32 = 2;
/// Setup flag: the polling thread is bound to one CPU.
pub const SETUP_SQ_AFF: u32 = 4;
/// Setup flag: the completion ring size is given explicitly.
pub const SETUP_CQSIZE: u32 = 8;
/// Feature bit: both rings share one mapping.
pub const FEAT_SINGLE_MMAP: u32 = 1;
/// Feature bit: completions are never dropped.
pub const FEAT_NODROP: u32 = 2;
/// Feature bit: submitted data is stable once the kernel has read it.
pub const FEAT_SUBMIT_STABLE: u32 = 4;

/// Where each field of the submission ring lies in its mapping.
#[derive(Clone, Copy, Debug, PartialEq, Eq, Structural)]
pub struct SqOffsets {
    pub head: u32,
    pub tail: u32,
    pub ring_mask: u32,
    pub ring_entries: u32,
    pub flags: u32,
    pub dropped: u32,
    pub array: u32,
}

/// Where each field of the completion ring lies in its mapping.
#[derive(Clone, Copy, Debug, PartialEq, Eq, Structural)]
pub struct CqOffsets {
    pub head: u32,
    pub tail: u32,
    pub ring_mask: u32,
    pub ring_entries: u32,
    pub overflow: u32,
    pub cqes: u32,
}

/// Requested configuration before setup; negotiated values after it.
#[derive(Clone, Copy, Debug, PartialEq, Eq, Structural)]
pub struct Params {
    pub sq_entries: u32,
    pub cq_entries: u32,
    pub flags: u32,
    pub sq_thread_cpu: u32,
    pub sq_thread_idle: u32,
    pub features: u32,
    pub sq_off: SqOffsets,
    pub cq_off: CqOffsets,
}

impl SqOffsets {
    pub fn new() -> (r: SqOffsets)
        ensures
            r.head == 0 && r.tail == 0 && r.ring_mask == 0 && r.ring_entries == 0,
            r.flags == 0 && r.dropped == 0 && r.array == 0,
    {
        SqOffsets { head: 0, tail: 0, ring_mask: 0, ring_entries: 0, flags: 0, dropped: 0, array: 0 }
    }
}

impl CqOffsets {
    pub fn new() -> (r: CqOffsets)
        ensures
            r.head == 0 && r.tail == 0 && r.ring_mask == 0 && r.ring_entries == 0,
            r.overflow == 0 && r.cqes == 0,
    {
        CqOffsets { head: 0, tail: 0, ring_mask: 0, ring_entries: 0, overflow: 0, cqes: 0 }
    }
}

impl Params {
    /// A record that requests nothing.
    pub fn new() -> (r: Params)
        ensures
            r.sq_entries == 0 && r.cq_entries == 0 && r.flags == 0,
            r.sq_thread_cpu == 0 && r.sq_thread_idle == 0 && r.features == 0,
            r.sq_off == (SqOffsets { head: 0, tail: 0, ring_mask: 0, ring_entries: 0, flags: 0, dropped: 0, array: 0 }),
            r.cq_off == (CqOffsets { head: 0, tail: 0, ring_mask: 0, ring_entries: 0, overflow: 0, cqes: 0 }),
    {
        Params {
            sq_entries: 0,
            cq_entries: 0,
            flags: 0,
            sq_thread_cpu: 0,
            sq_thread_idle: 0,
            features: 0,
            sq_off: SqOffsets::new(),
            cq_off: CqOffsets::new(),
        }
    }

    /// Requests the single combined mapping.
    pub fn feature_single_mmap(&mut self) -> (r: &mut Self)
        ensures
            *r == (Params { features: old(self).features | FEAT_SINGLE_MMAP, ..*old(self) }),
            *final(self) == *final(r),
    {
        self.features = self.features | FEAT_SINGLE_MMAP;
        self
    }

    /// Requests that completions are never dropped.
    pub fn feature_nodrop(&mut self) -> (r: &mut Self)
        ensures
            *r == (Params { features: old(self).features | FEAT_NODROP, ..*old(self) }),
            *final(self) == *final(r),
    {
        self.features = self.features | FEAT_NODROP;
        self
    }

    /// Requests that submitted data is stable once the kernel has read it.
    pub fn feature_submit_stable(&mut self) -> (r: &mut Self)
        ensures
            *r == (Params { features: old(self).features | FEAT_SUBMIT_STABLE, ..*old(self) }),
            *final(self) == *final(r),
    {
        self.features = self.features | FEAT_SUBMIT_STABLE;
        self
    }

    /// Busy-waits for completions instead of taking interrupts.
    pub fn setup_iopoll(&mut self) -> (r: &mut Self)
        ensures
            *r == (Params { flags: old(self).flags | SETUP_IOPOLL, ..*old(self) }),
            *final(self) == *final(r),
    {
        self.flags = self.flags | SETUP_IOPOLL;
        self
    }

    /// Has a kernel thread poll the submission ring, idling after `idle`
    /// milliseconds when given.
    pub fn setup_sqpoll(&mut self, idle: Option<u32>) -> (r: &mut Self)
        ensures
            r.flags == old(self).flags | SETUP_SQPOLL,
            r.sq_thread_idle == match idle {
                Some(n) => n,
                None => old(self).sq_thread_idle,
            },
            *r == (Params { flags: r.flags, sq_thread_idle: r.sq_thread_idle, ..*old(self) }),
            *final(self) == *final(r),
    {
        self.flags = self.flags | SETUP_SQPOLL;
        if let Some(n) = idle {
            self.sq_thread_idle = n;
        }
        self
    }

    /// Binds the polling thread to CPU `n`; meaningful with `setup_sqpoll`.
    pub fn setup_sqpoll_cpu(&mut self, n: u32) -> (r: &mut Self)
        ensures
            *r == (Params { flags: old(self).flags | SETUP_SQ_AFF, sq_thread_cpu: n, ..*old(self) }),
            *final(self) == *final(r),
    {
        self.flags = self.flags | SETUP_SQ_AFF;
        self.sq_thread_cpu = n;
        self
    }

    /// Asks for a completion ring of `n` entries, apart from the submission ring's size.
    pub fn setup_cqsize(&mut self, n: u32) -> (r: &mut Self)
        ensures
            *r == (Params { flags: old(self).flags | SETUP_CQSIZE, cq_entries: n, ..*old(self) }),
            *final(self) == *final(r),
    {
        self.flags = self.flags | SETUP_CQSIZE;
        self.cq_entries = n;
        self
    }

    pub fn is_feature_nodrop(&self) -> (r: bool)
        ensures
            r == (self.features & FEAT_NODROP != 0),
    {
        self.features & FEAT_NODROP != 0
    }

    pub fn sq_entries(&self) -> (r: u32)
        ensures
            r == self.sq_entries,
    {
        self.sq_entries
    }

    pub fn cq_entries(&self) -> (r: u32)
        ensures
            r == self.cq_entries,
    {
        self.cq_entries
    }
}

} // verus!
