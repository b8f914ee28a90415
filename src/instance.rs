//! One ring instance: its descriptor, its layout and its two queues.
use vstd::prelude::*;
use crate::cqueue::CompletionQueue;
use crate::error::Error;
use crate::layout::{MemoryLayout, Region, cq_ring_len, sq_ring_len};
use crate::params::{Params, FEAT_SINGLE_MMAP};
use crate::ring::{is_ring_size, ring_size};
use crate::squeue::{SubmissionQueue, SQ_NEED_WAKEUP};
use crate::submit::{
    enter_plan, register_call, unregister_call, Enter, RegisterCall, RegisterTarget, Submitter, UnregisterTarget,
};

verus! {

/// One step of releasing an instance's resources.
#[derive(Clone, Copy, Debug, PartialEq, Eq, Structural)]
pub enum Release {
    Unmap(Region),
    Close(i32),
}

/// The release steps of a live instance: every region unmapped, in the order
/// they were mapped, and the descriptor closed last.
pub open spec fn release_steps(layout: MemoryLayout, fd: i32) -> Seq<Release> {
    layout.regions_spec().map_values(|g: Region| Release::Unmap(g)).push(Release::Close(fd))
}

/// Releasing a live instance unmaps each of its regions exactly once, in
/// mapping order, and closes the descriptor only after every region is unmapped.
pub proof fn lemma_release_order(layout: MemoryLayout, fd: i32)
    ensures
        release_steps(layout, fd).len() == layout.regions_spec().len() + 1,
        release_steps(layout, fd).last() == Release::Close(fd),
        forall|i: int|
            0 <= i < layout.regions_spec().len() ==> release_steps(layout, fd)[i] == Release::Unmap(
                layout.regions_spec()[i],
            ),
        forall|i: int|
            0 <= i < release_steps(layout, fd).len() - 1 ==> !(release_steps(layout, fd)[i] is Close),
{
}

/// A ring instance.
///
/// Its queues live as long as it does and are reached only through it; once
/// it is torn down its queues are no longer handed out.
pub struct IoUring {
    fd: i32,
    flags: u32,
    layout: MemoryLayout,
    sq: SubmissionQueue,
    cq: CompletionQueue,
    live: bool,
}

impl IoUring {
    pub closed spec fn wf(&self) -> bool {
        self.sq.wf() && self.cq.wf()
    }

    /// A ring is well formed exactly when both of its queues are.
    pub proof fn lemma_wf(&self)
        ensures
            self.wf() <==> self.sq_spec().wf() && self.cq_spec().wf(),
    {
    }

    pub closed spec fn fd_spec(&self) -> i32 {
        self.fd
    }

    /// The setup flags the kernel granted.
    pub closed spec fn flags_spec(&self) -> u32 {
        self.flags
    }

    pub closed spec fn layout_spec(&self) -> MemoryLayout {
        self.layout
    }

    pub closed spec fn sq_spec(&self) -> SubmissionQueue {
        self.sq
    }

    pub closed spec fn cq_spec(&self) -> CompletionQueue {
        self.cq
    }

    /// Whether the instance still holds its mappings and descriptor.
    pub closed spec fn is_live(&self) -> bool {
        self.live
    }

    /// The instance over the descriptor `fd` that setup returned and the
    /// parameters it negotiated, once the regions of its layout are mapped.
    pub fn new(fd: i32, p: &Params) -> (r: Result<IoUring, Error>)
        ensures
            r is Ok <==> fd >= 0 && is_ring_size(p.sq_entries) && is_ring_size(p.cq_entries),
            r is Err ==> r == Err::<IoUring, Error>(Error::InvalidParams),
            r matches Ok(u) ==> {
                &&& u.wf()
                &&& u.sq_spec().wf()
                &&& u.cq_spec().wf()
                &&& u.is_live()
                &&& u.fd_spec() == fd
                &&& u.flags_spec() == p.flags
                &&& u.layout_spec().sq_ring_len == sq_ring_len(*p)
                &&& u.layout_spec().cq_ring_len == cq_ring_len(*p)
                &&& u.layout_spec().sqe_len == p.sq_entries * 64
                &&& u.layout_spec().single_mmap == (p.features & FEAT_SINGLE_MMAP != 0)
                &&& u.sq_spec().capacity_spec() == p.sq_entries
                &&& u.sq_spec().pending().len() == 0
                &&& u.sq_spec().published() == 0
                &&& u.sq_spec().flags_spec() == 0
                &&& u.sq_spec().dropped_spec() == 0
                &&& u.cq_spec().capacity_spec() == p.cq_entries
                &&& u.cq_spec().ready().len() == 0
                &&& u.cq_spec().unreleased() == 0
                &&& u.cq_spec().overflow_spec() == 0
            },
    {
        if fd < 0 || !ring_size(p.sq_entries) || !ring_size(p.cq_entries) {
            return Err(Error::InvalidParams);
        }
        Ok(IoUring {
            fd,
            flags: p.flags,
            layout: MemoryLayout::of(p),
            sq: SubmissionQueue::new(p.sq_entries),
            cq: CompletionQueue::new(p.cq_entries),
            live: true,
        })
    }

    fn as_submit(&self) -> (r: Submitter)
        ensures
            r.fd_spec() == self.fd_spec(),
            r.flags_spec() == self.flags_spec(),
    {
        Submitter::new(self.fd, self.flags)
    }

    /// The descriptor of the ring.
    pub fn as_raw_fd(&self) -> (r: i32)
        ensures
            r == self.fd_spec(),
    {
        self.fd
    }

    /// The layout the instance was mapped with.
    pub fn layout(&self) -> (r: MemoryLayout)
        ensures
            r == self.layout_spec(),
    {
        self.layout
    }

    /// The call that registers `target` with the kernel.
    pub fn register(&self, target: &RegisterTarget) -> (r: Result<RegisterCall, Error>)
        ensures
            r == register_call(self.fd_spec(), *target),
    {
        self.as_submit().register(target)
    }

    /// The call that unregisters `target`.
    pub fn unregister(&self, target: UnregisterTarget) -> (r: RegisterCall)
        ensures
            r == unregister_call(self.fd_spec(), target),
    {
        self.as_submit().unregister(target)
    }

    /// Publishes the pushed submissions and says how to hand them to the kernel.
    pub fn submit(&mut self) -> (r: Enter)
        requires
            old(self).wf(),
            old(self).is_live(),
        ensures
            final(self).wf(),
            final(self).sq_spec().wf(),
            final(self).is_live(),
            final(self).sq_spec().pending() == old(self).sq_spec().pending(),
            final(self).sq_spec().published() == old(self).sq_spec().pending().len(),
            final(self).sq_spec().capacity_spec() == old(self).sq_spec().capacity_spec(),
            final(self).cq_spec() == old(self).cq_spec(),
            final(self).fd_spec() == old(self).fd_spec(),
            final(self).flags_spec() == old(self).flags_spec(),
            final(self).layout_spec() == old(self).layout_spec(),
            r == enter_plan(
                old(self).flags_spec(),
                old(self).sq_spec().flags_spec() & SQ_NEED_WAKEUP != 0,
                old(self).sq_spec().pending().len() as u32,
                0,
            ),
    {
        let s = self.as_submit();
        s.submit(&mut self.sq)
    }

    /// As `submit`, and waits for `want` completions.
    pub fn submit_and_wait(&mut self, want: u32) -> (r: Enter)
        requires
            old(self).wf(),
            old(self).is_live(),
        ensures
            final(self).wf(),
            final(self).sq_spec().wf(),
            final(self).is_live(),
            final(self).sq_spec().pending() == old(self).sq_spec().pending(),
            final(self).sq_spec().published() == old(self).sq_spec().pending().len(),
            final(self).sq_spec().capacity_spec() == old(self).sq_spec().capacity_spec(),
            final(self).cq_spec() == old(self).cq_spec(),
            final(self).fd_spec() == old(self).fd_spec(),
            final(self).flags_spec() == old(self).flags_spec(),
            final(self).layout_spec() == old(self).layout_spec(),
            r == enter_plan(
                old(self).flags_spec(),
                old(self).sq_spec().flags_spec() & SQ_NEED_WAKEUP != 0,
                old(self).sq_spec().pending().len() as u32,
                want,
            ),
    {
        let s = self.as_submit();
        s.submit_and_wait(&mut self.sq, want)
    }

    /// The submitter and both queues, to be used side by side.
    pub fn split(&mut self) -> (r: (Submitter, &mut SubmissionQueue, &mut CompletionQueue))
        requires
            old(self).is_live(),
        ensures
            r.0.fd_spec() == old(self).fd_spec(),
            r.0.flags_spec() == old(self).flags_spec(),
            *r.1 == old(self).sq_spec(),
            *r.2 == old(self).cq_spec(),
            old(self).wf() ==> r.1.wf() && r.2.wf(),
            old(self).wf() && final(r.1).wf() && final(r.2).wf() ==> final(self).wf(),
            final(self).sq_spec() == *final(r.1),
            final(self).cq_spec() == *final(r.2),
            final(self).fd_spec() == old(self).fd_spec(),
            final(self).flags_spec() == old(self).flags_spec(),
            final(self).layout_spec() == old(self).layout_spec(),
            final(self).is_live(),
    {
        let s = Submitter::new(self.fd, self.flags);
        (s, &mut self.sq, &mut self.cq)
    }

    /// The submission queue.
    pub fn submission(&mut self) -> (r: &mut SubmissionQueue)
        requires
            old(self).is_live(),
        ensures
            *r == old(self).sq_spec(),
            old(self).wf() ==> r.wf(),
            old(self).wf() && final(r).wf() ==> final(self).wf(),
            final(self).sq_spec() == *final(r),
            final(self).cq_spec() == old(self).cq_spec(),
            final(self).fd_spec() == old(self).fd_spec(),
            final(self).flags_spec() == old(self).flags_spec(),
            final(self).layout_spec() == old(self).layout_spec(),
            final(self).is_live(),
    {
        &mut self.sq
    }

    /// The completion queue.
    pub fn completion(&mut self) -> (r: &mut CompletionQueue)
        requires
            old(self).is_live(),
        ensures
            *r == old(self).cq_spec(),
            old(self).wf() ==> r.wf(),
            old(self).wf() && final(r).wf() ==> final(self).wf(),
            final(self).cq_spec() == *final(r),
            final(self).sq_spec() == old(self).sq_spec(),
            final(self).fd_spec() == old(self).fd_spec(),
            final(self).flags_spec() == old(self).flags_spec(),
            final(self).layout_spec() == old(self).layout_spec(),
            final(self).is_live(),
    {
        &mut self.cq
    }

    /// Ends the instance: on the first call, the steps that release its
    /// resources, the descriptor closed last; on any later call, none.
    pub fn teardown(&mut self) -> (r: Vec<Release>)
        ensures
            old(self).is_live() ==> r@ == release_steps(old(self).layout_spec(), old(self).fd_spec()),
            !old(self).is_live() ==> r@.len() == 0,
            !final(self).is_live(),
            final(self).fd_spec() == old(self).fd_spec(),
            final(self).layout_spec() == old(self).layout_spec(),
    {
        let mut r: Vec<Release> = Vec::new();
        if !self.live {
            return r;
        }
        self.live = false;
        let regions = self.layout.regions();
        let mut i: usize = 0;
        while i < regions.len()
            invariant
                i <= regions@.len(),
                regions@ == self.layout.regions_spec(),
                r@ == regions@.take(i as int).map_values(|g: Region| Release::Unmap(g)),
            decreases regions@.len() - i,
        {
            r.push(Release::Unmap(regions[i]));
            i = i + 1;
            assert(r@ =~= regions@.take(i as int).map_values(|g: Region| Release::Unmap(g)));
        }
        r.push(Release::Close(self.fd));
        assert(regions@.take(i as int) =~= regions@);
        r
    }
}

} // verus!
