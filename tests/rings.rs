use io_uring::cqueue;
use io_uring::error::Error;
use io_uring::instance::Release;
use io_uring::layout::{MemoryLayout, Region, OFF_CQ_RING, OFF_SQES, OFF_SQ_RING};
use io_uring::params::{Params, FEAT_NODROP, FEAT_SINGLE_MMAP, SETUP_CQSIZE, SETUP_IOPOLL, SETUP_SQPOLL, SETUP_SQ_AFF};
use io_uring::squeue::{self, SlotWrite, SQ_NEED_WAKEUP};
use io_uring::submit::{
    enter_result, register_result, Enter, IoVec, RegisterCall, RegisterTarget, UnregisterTarget, ENTER_GETEVENTS,
    ENTER_SQ_WAKEUP, REGISTER_BUFFERS, REGISTER_EVENTFD, REGISTER_FILES, UNREGISTER_FILES,
};
use io_uring::{CompletionQueue, IoUring, SubmissionQueue};

fn negotiated(sq: u32, cq: u32, features: u32) -> Params {
    let mut p = Params::new();
    p.sq_entries = sq;
    p.cq_entries = cq;
    p.features = features;
    p.sq_off.array = 320;
    p.cq_off.cqes = 64;
    p
}

fn ring(sq: u32, cq: u32) -> IoUring {
    IoUring::new(3, &negotiated(sq, cq, 0)).ok().unwrap()
}

#[test]
fn single_mapping_layout_of_eight_and_sixteen() {
    let p = negotiated(8, 16, FEAT_SINGLE_MMAP);
    let l = MemoryLayout::of(&p);
    assert_eq!(l.sq_ring_len, 320 + 8 * 4);
    assert_eq!(l.cq_ring_len, 64 + 16 * 16);
    assert_eq!(l.sqe_len, 8 * 64);
    assert!(l.single_mmap);
    let r = l.regions();
    assert_eq!(r, vec![Region { offset: OFF_SQES, len: 512 }, Region { offset: OFF_SQ_RING, len: 352 }]);
}

#[test]
fn single_mapping_takes_the_larger_ring() {
    let mut p = negotiated(8, 16, FEAT_SINGLE_MMAP);
    p.cq_off.cqes = 200;
    let r = MemoryLayout::of(&p).regions();
    assert_eq!(r.len(), 2);
    assert_eq!(r[1], Region { offset: OFF_SQ_RING, len: 200 + 256 });
}

#[test]
fn dual_mapping_layout() {
    let r = MemoryLayout::of(&negotiated(8, 16, 0)).regions();
    assert_eq!(
        r,
        vec![
            Region { offset: OFF_SQES, len: 512 },
            Region { offset: OFF_SQ_RING, len: 352 },
            Region { offset: OFF_CQ_RING, len: 320 },
        ]
    );
}

#[test]
fn push_submit_complete_in_order() {
    let mut u = ring(8, 16);
    for i in 0..8u64 {
        assert_eq!(u.submission().push(squeue::Entry::new(1, i)), Ok(()));
    }
    let extra = squeue::Entry::new(1, 99);
    assert_eq!(u.submission().push(extra), Err(extra));
    assert_eq!(u.submit(), Enter::Call { to_submit: 8, min_complete: 0, flags: 0 });
    let (_, sq, cq) = u.split();
    let mut taken = 0u32;
    while let Some(e) = sq.kernel_pop() {
        assert!(cq.kernel_push(cqueue::Entry::new(e.user_data, 0)));
        taken += 1;
    }
    assert_eq!(enter_result(taken as i32, 0), Ok(8));
    for i in 0..8u64 {
        assert_eq!(u.completion().next().map(|c| c.user_data), Some(i));
    }
    assert_eq!(u.completion().next(), None);
}

#[test]
fn overflow_counts_a_lost_completion() {
    let mut cq = CompletionQueue::new(4);
    assert_eq!(cq.overflow(), 0);
    for i in 0..4u64 {
        assert!(cq.kernel_push(cqueue::Entry::new(i, 0)));
    }
    assert!(!cq.kernel_push(cqueue::Entry::new(100, 0)));
    assert_eq!(cq.overflow(), 1);
    let mut seen = Vec::new();
    while let Some(c) = cq.next() {
        seen.push(c.user_data);
    }
    assert_eq!(seen, vec![0, 1, 2, 3]);
}

#[test]
fn overflow_waits_for_released_slots() {
    let mut cq = CompletionQueue::new(2);
    assert!(cq.kernel_push(cqueue::Entry::new(1, 0)));
    assert!(cq.kernel_push(cqueue::Entry::new(2, 0)));
    assert_eq!(cq.next().map(|c| c.user_data), Some(1));
    assert!(!cq.kernel_push(cqueue::Entry::new(3, 0)));
    cq.sync();
    assert!(cq.kernel_push(cqueue::Entry::new(4, 0)));
    assert_eq!(cq.overflow(), 1);
    assert_eq!(cq.next().map(|c| c.user_data), Some(2));
    assert_eq!(cq.next().map(|c| c.user_data), Some(4));
}

#[test]
fn available_slots_track_pushes_and_retires() {
    let mut sq = SubmissionQueue::new(4);
    assert_eq!(sq.available_slots(), 4);
    assert!(sq.is_empty());
    for i in 0..4u64 {
        sq.push(squeue::Entry::new(0, i)).unwrap();
        assert_eq!(sq.available_slots(), 3 - i as u32);
    }
    assert!(sq.is_full());
    assert_eq!(sq.len(), 4);
    sq.sync();
    assert_eq!(sq.kernel_pop().map(|e| e.user_data), Some(0));
    assert_eq!(sq.available_slots(), 1);
    assert_eq!(sq.kernel_pop().map(|e| e.user_data), Some(1));
    assert_eq!(sq.available_slots(), 2);
}

#[test]
fn full_queue_rejects_then_recovers() {
    let mut sq = SubmissionQueue::new(2);
    sq.push(squeue::Entry::new(0, 1)).unwrap();
    sq.push(squeue::Entry::new(0, 2)).unwrap();
    let e = squeue::Entry::new(0, 3);
    assert_eq!(sq.push(e), Err(e));
    assert_eq!(sq.len(), 2);
    sq.sync();
    assert_eq!(sq.kernel_pop().map(|e| e.user_data), Some(1));
    assert_eq!(sq.push(e), Ok(()));
    sq.sync();
    assert_eq!(sq.kernel_pop().map(|e| e.user_data), Some(2));
    assert_eq!(sq.kernel_pop().map(|e| e.user_data), Some(3));
    assert_eq!(sq.kernel_pop(), None);
}

#[test]
fn unpublished_entries_are_not_taken() {
    let mut sq = SubmissionQueue::new(2);
    sq.push(squeue::Entry::new(0, 1)).unwrap();
    assert_eq!(sq.kernel_pop(), None);
    sq.sync();
    assert_eq!(sq.kernel_pop().map(|e| e.user_data), Some(1));
}

#[test]
fn rings_wrap_around_many_times() {
    let mut sq = SubmissionQueue::new(4);
    let mut cq = CompletionQueue::new(4);
    for i in 0..50u64 {
        sq.push(squeue::Entry::new(0, i)).unwrap();
        sq.push(squeue::Entry::new(0, i + 1000)).unwrap();
        sq.sync();
        let a = sq.kernel_pop().unwrap();
        let b = sq.kernel_pop().unwrap();
        assert_eq!((a.user_data, b.user_data), (i, i + 1000));
        assert!(cq.kernel_push(cqueue::Entry::new(a.user_data, 1)));
        assert_eq!(cq.next().map(|c| c.user_data), Some(i));
        cq.sync();
    }
    assert!(sq.is_empty());
    assert!(cq.is_empty());
}

#[test]
fn next_on_empty_then_one_entry() {
    let mut cq = CompletionQueue::new(8);
    assert!(cq.is_empty());
    assert_eq!(cq.next(), None);
    assert!(cq.kernel_push(cqueue::Entry::new(7, -5)));
    assert_eq!(cq.len(), 1);
    assert_eq!(cq.next(), Some(cqueue::Entry::new(7, -5)));
    assert_eq!(cq.next(), None);
}

#[test]
fn completion_carries_the_submission_tag() {
    let mut u = ring(4, 8);
    u.submission().push(squeue::Entry::new(2, 0xdead_beef)).unwrap();
    u.submit();
    let (_, sq, cq) = u.split();
    let e = sq.kernel_pop().unwrap();
    assert!(cq.kernel_push(cqueue::Entry::new(e.user_data, 42)));
    let c = u.completion().next().unwrap();
    assert_eq!(c.user_data, 0xdead_beef);
    assert_eq!(c.result, 42);
}

#[test]
fn sync_twice_changes_nothing() {
    let mut sq = SubmissionQueue::new(4);
    sq.push(squeue::Entry::new(0, 1)).unwrap();
    sq.sync();
    sq.sync();
    assert_eq!(sq.kernel_pop().map(|e| e.user_data), Some(1));
    assert_eq!(sq.kernel_pop(), None);
    let mut cq = CompletionQueue::new(1);
    assert!(cq.kernel_push(cqueue::Entry::new(1, 0)));
    cq.next();
    cq.sync();
    cq.sync();
    assert!(cq.kernel_push(cqueue::Entry::new(2, 0)));
    assert_eq!(cq.overflow(), 0);
}

#[test]
fn sq_dropped_and_flags() {
    let mut sq = SubmissionQueue::new(2);
    assert_eq!(sq.dropped(), 0);
    sq.observe_dropped(1);
    assert_eq!(sq.dropped(), 1);
    assert!(!sq.need_wakeup());
    sq.observe_flags(SQ_NEED_WAKEUP);
    assert!(sq.need_wakeup());
    assert_eq!(sq.capacity(), 2);
}

#[test]
fn teardown_unmaps_then_closes_once() {
    let mut u = IoUring::new(5, &negotiated(8, 16, FEAT_SINGLE_MMAP)).ok().unwrap();
    let steps = u.teardown();
    assert_eq!(
        steps,
        vec![
            Release::Unmap(Region { offset: OFF_SQES, len: 512 }),
            Release::Unmap(Region { offset: OFF_SQ_RING, len: 352 }),
            Release::Close(5),
        ]
    );
    assert!(u.teardown().is_empty());
}

#[test]
fn teardown_of_dual_mapping() {
    let mut u = ring(8, 16);
    let steps = u.teardown();
    assert_eq!(steps.len(), 4);
    assert_eq!(steps[2], Release::Unmap(Region { offset: OFF_CQ_RING, len: 320 }));
    assert_eq!(steps[3], Release::Close(3));
}

#[test]
fn new_rejects_bad_negotiation() {
    assert_eq!(IoUring::new(-1, &negotiated(8, 16, 0)).err(), Some(Error::InvalidParams));
    assert_eq!(IoUring::new(3, &negotiated(6, 16, 0)).err(), Some(Error::InvalidParams));
    assert_eq!(IoUring::new(3, &negotiated(8, 0, 0)).err(), Some(Error::InvalidParams));
    let u = IoUring::new(3, &negotiated(1, 1, 0)).ok().unwrap();
    assert_eq!(u.as_raw_fd(), 3);
}

#[test]
fn submit_plans() {
    let mut u = ring(4, 8);
    u.submission().push(squeue::Entry::new(0, 1)).unwrap();
    assert_eq!(u.submit_and_wait(1), Enter::Call { to_submit: 1, min_complete: 1, flags: ENTER_GETEVENTS });
    let mut p = negotiated(4, 8, 0);
    p.flags = SETUP_SQPOLL;
    let mut polled = IoUring::new(3, &p).ok().unwrap();
    polled.submission().push(squeue::Entry::new(0, 1)).unwrap();
    assert_eq!(polled.submit(), Enter::Skip(1));
    assert_eq!(polled.submit_and_wait(2), Enter::Call { to_submit: 1, min_complete: 2, flags: ENTER_GETEVENTS });
    polled.submission().observe_flags(SQ_NEED_WAKEUP);
    assert_eq!(polled.submit(), Enter::Call { to_submit: 1, min_complete: 0, flags: ENTER_SQ_WAKEUP });
    assert_eq!(
        polled.submit_and_wait(1),
        Enter::Call { to_submit: 1, min_complete: 1, flags: ENTER_SQ_WAKEUP | ENTER_GETEVENTS }
    );
}

#[test]
fn call_results() {
    assert_eq!(enter_result(3, 0), Ok(3));
    assert_eq!(enter_result(-1, 4), Err(Error::Os(4)));
    assert_eq!(register_result(0, 0), Ok(()));
    assert_eq!(register_result(-1, 9), Err(Error::Os(9)));
}

#[test]
fn register_calls() {
    let u = ring(4, 8);
    assert_eq!(
        u.register(&RegisterTarget::Files(vec![4, 5, 6])),
        Ok(RegisterCall { fd: 3, opcode: REGISTER_FILES, nr_args: 3 })
    );
    assert_eq!(
        u.register(&RegisterTarget::Buffers(vec![IoVec { base: 4096, len: 10 }])),
        Ok(RegisterCall { fd: 3, opcode: REGISTER_BUFFERS, nr_args: 1 })
    );
    assert_eq!(
        u.register(&RegisterTarget::EventFd(9)),
        Ok(RegisterCall { fd: 3, opcode: REGISTER_EVENTFD, nr_args: 1 })
    );
    assert_eq!(u.unregister(UnregisterTarget::Files), RegisterCall { fd: 3, opcode: UNREGISTER_FILES, nr_args: 0 });
}

#[test]
fn params_builders() {
    let mut p = Params::new();
    p.setup_iopoll().setup_sqpoll(Some(2000)).setup_sqpoll_cpu(3).setup_cqsize(64).feature_single_mmap();
    assert_eq!(p.flags, SETUP_IOPOLL | SETUP_SQPOLL | SETUP_SQ_AFF | SETUP_CQSIZE);
    assert_eq!(p.sq_thread_idle, 2000);
    assert_eq!(p.sq_thread_cpu, 3);
    assert_eq!(p.cq_entries(), 64);
    assert_eq!(p.sq_entries(), 0);
    assert_eq!(p.features, FEAT_SINGLE_MMAP);
    assert!(!p.is_feature_nodrop());
    p.feature_nodrop().feature_submit_stable();
    assert!(p.is_feature_nodrop());
    assert_eq!(p.features & FEAT_NODROP, FEAT_NODROP);
    p.setup_sqpoll(None);
    assert_eq!(p.sq_thread_idle, 2000);
}

#[test]
fn publish_lists_new_entries_with_their_slots() {
    let mut sq = SubmissionQueue::new(4);
    let a = squeue::Entry::new(1, 10);
    let b = squeue::Entry::new(1, 11);
    sq.push(a).unwrap();
    let (w, tail) = sq.publish();
    assert_eq!(w, vec![SlotWrite { slot: 0, entry: a }]);
    assert_eq!(tail, 1);
    sq.push(b).unwrap();
    let (w, tail) = sq.publish();
    assert_eq!(w, vec![SlotWrite { slot: 1, entry: b }]);
    assert_eq!(tail, 2);
    let (w, tail) = sq.publish();
    assert!(w.is_empty());
    assert_eq!(tail, 2);
}

#[test]
fn observed_head_frees_slots() {
    let mut sq = SubmissionQueue::new(2);
    sq.push(squeue::Entry::new(0, 1)).unwrap();
    sq.push(squeue::Entry::new(0, 2)).unwrap();
    assert!(!sq.observe_head(1));
    assert_eq!(sq.available_slots(), 0);
    sq.publish();
    assert!(!sq.observe_head(3));
    assert!(sq.observe_head(1));
    assert_eq!(sq.head_counter(), 1);
    assert_eq!(sq.available_slots(), 1);
    sq.push(squeue::Entry::new(0, 3)).unwrap();
    let (w, tail) = sq.publish();
    assert_eq!(w, vec![SlotWrite { slot: 0, entry: squeue::Entry::new(0, 3) }]);
    assert_eq!(tail, 3);
    assert!(sq.observe_head(3));
    assert!(sq.is_empty());
}

#[test]
fn post_slot_and_observed_overflow() {
    let mut cq = CompletionQueue::new(2);
    assert_eq!(cq.post_slot(), Some(0));
    assert!(cq.kernel_push(cqueue::Entry::new(1, 0)));
    assert_eq!(cq.post_slot(), Some(1));
    assert!(cq.kernel_push(cqueue::Entry::new(2, 0)));
    assert_eq!(cq.post_slot(), None);
    assert_eq!(cq.tail_counter(), 2);
    cq.next();
    assert_eq!(cq.post_slot(), None);
    cq.sync();
    assert_eq!(cq.head_counter(), 1);
    assert_eq!(cq.post_slot(), Some(0));
    cq.observe_overflow(5);
    assert_eq!(cq.overflow(), 5);
}
