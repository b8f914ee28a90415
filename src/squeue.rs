//! The submission ring: the process produces, the kernel consumes.
use vstd::prelude::*;
use crate::ring::{
    distance, is_ring_size, lemma_advance, lemma_distance_split, lemma_distance_zero, lemma_slot_bound,
    lemma_slots_differ, lemma_step, lemma_step_from, lemma_wrap_add, wrap,
};

verus! {

/// Flag word bit set by the kernel when its polling thread sleeps and must be woken.
pub const SQ_NEED_WAKEUP: u32 = 1;

/// A submission entry, stored and forwarded as it is.
#[derive(Clone, Copy, Debug, PartialEq, Eq, Structural)]
pub struct Entry {
    pub opcode: u8,
    pub flags: u8,
    pub ioprio: u16,
    pub fd: i32,
    pub off: u64,
    pub addr: u64,
    pub len: u32,
    pub op_flags: u32,
    pub user_data: u64,
}

impl Entry {
    /// An entry of the given operation code and tag, every other field zero.
    pub fn new(opcode: u8, user_data: u64) -> (r: Entry)
        ensures
            r.opcode == opcode,
            r.user_data == user_data,
            r.flags == 0 && r.ioprio == 0 && r.fd == 0 && r.off == 0,
            r.addr == 0 && r.len == 0 && r.op_flags == 0,
    {
        Entry { opcode, flags: 0, ioprio: 0, fd: 0, off: 0, addr: 0, len: 0, op_flags: 0, user_data }
    }
}

/// An entry to copy into the shared entry array, and its slot there.
#[derive(Clone, Copy, Debug, PartialEq, Eq, Structural)]
pub struct SlotWrite {
    pub slot: u32,
    pub entry: Entry,
}

/// The submission ring as the process sees it.
///
/// `head` is advanced by the kernel, `tail` is the tail published to it, and
/// `local_tail` counts the entries pushed, published or not. Slots are reached
/// through the index array, which maps each ring position to an entry slot.
pub struct SubmissionQueue {
    head: u32,
    tail: u32,
    local_tail: u32,
    ring_mask: u32,
    ring_entries: u32,
    flags: u32,
    dropped: u32,
    array: Vec<u32>,
    sqes: Vec<Entry>,
}

impl SubmissionQueue {
    pub closed spec fn wf(&self) -> bool {
        &&& is_ring_size(self.ring_entries)
        &&& self.ring_mask == self.ring_entries - 1
        &&& self.sqes@.len() == self.ring_entries
        &&& self.array@.len() == self.ring_entries
        &&& forall|k: int| 0 <= k < self.ring_entries ==> self.array@[k] == k
        &&& distance(self.head, self.local_tail) <= self.ring_entries
        &&& distance(self.head, self.tail) <= distance(self.head, self.local_tail)
    }

    /// The number of entries the ring holds.
    pub closed spec fn capacity_spec(&self) -> nat {
        self.ring_entries as nat
    }

    /// The kernel's head: the counter of the oldest entry it has not consumed.
    pub closed spec fn head_spec(&self) -> u32 {
        self.head
    }

    /// The tail last published to the kernel.
    pub closed spec fn tail_spec(&self) -> u32 {
        self.tail
    }

    pub closed spec fn mask_spec(&self) -> u32 {
        self.ring_mask
    }

    /// The slot of the `i`-th entry after the kernel's head.
    pub open spec fn slot_at(&self, i: int) -> int {
        (wrap(self.head_spec() as int + i) & self.mask_spec()) as int
    }

    /// The entries pushed and not yet taken by the kernel, oldest first.
    pub closed spec fn pending(&self) -> Seq<Entry> {
        Seq::new(distance(self.head, self.local_tail), |i: int| self.sqes@[self.slot_at(i)])
    }

    /// How many of the pending entries have been published to the kernel.
    pub closed spec fn published(&self) -> nat {
        distance(self.head, self.tail)
    }

    /// The number of free slots.
    pub open spec fn available_spec(&self) -> int {
        self.capacity_spec() - self.pending().len()
    }

    /// The flag word the kernel last wrote.
    pub closed spec fn flags_spec(&self) -> u32 {
        self.flags
    }

    /// The kernel's count of submissions it dropped as malformed.
    pub closed spec fn dropped_spec(&self) -> u32 {
        self.dropped
    }

    /// An empty ring of `entries` slots.
    pub fn new(entries: u32) -> (r: SubmissionQueue)
        requires
            is_ring_size(entries),
        ensures
            r.wf(),
            r.capacity_spec() == entries,
            r.pending() == Seq::<Entry>::empty(),
            r.published() == 0,
            r.flags_spec() == 0,
            r.dropped_spec() == 0,
    {
        let mut array: Vec<u32> = Vec::new();
        let mut sqes: Vec<Entry> = Vec::new();
        let mut i: u32 = 0;
        while i < entries
            invariant
                i <= entries,
                array@.len() == i,
                sqes@.len() == i,
                forall|k: int| 0 <= k < i ==> array@[k] == k,
            decreases entries - i,
        {
            array.push(i);
            sqes.push(Entry::new(0, 0));
            i = i + 1;
        }
        let r = SubmissionQueue {
            head: 0,
            tail: 0,
            local_tail: 0,
            ring_mask: entries - 1,
            ring_entries: entries,
            flags: 0,
            dropped: 0,
            array,
            sqes,
        };
        assert(r.pending() =~= Seq::<Entry>::empty());
        r
    }

    /// The kernel's head as last taken in.
    pub fn head_counter(&self) -> (r: u32)
        ensures
            r == self.head_spec(),
    {
        self.head
    }

    /// The number of entries the ring holds.
    pub fn capacity(&self) -> (r: u32)
        requires
            self.wf(),
        ensures
            r == self.capacity_spec(),
    {
        self.ring_entries
    }

    /// The number of entries pushed and not yet taken by the kernel.
    pub fn len(&self) -> (r: u32)
        requires
            self.wf(),
        ensures
            r == self.pending().len(),
    {
        self.local_tail.wrapping_sub(self.head)
    }

    /// The number of free slots: capacity less the pending entries.
    pub fn available_slots(&self) -> (r: u32)
        requires
            self.wf(),
        ensures
            r == self.available_spec(),
    {
        self.ring_entries - self.local_tail.wrapping_sub(self.head)
    }

    pub fn is_empty(&self) -> (r: bool)
        requires
            self.wf(),
        ensures
            r == (self.pending().len() == 0),
    {
        self.local_tail == self.head
    }

    pub fn is_full(&self) -> (r: bool)
        requires
            self.wf(),
        ensures
            r == (self.pending().len() == self.capacity_spec()),
    {
        self.local_tail.wrapping_sub(self.head) == self.ring_entries
    }

    /// Whether the kernel asked for its polling thread to be woken.
    pub fn need_wakeup(&self) -> (r: bool)
        requires
            self.wf(),
        ensures
            r == (self.flags_spec() & SQ_NEED_WAKEUP != 0),
    {
        self.flags & SQ_NEED_WAKEUP != 0
    }

    /// The kernel's count of dropped submissions.
    pub fn dropped(&self) -> (r: u32)
        ensures
            r == self.dropped_spec(),
    {
        self.dropped
    }

    /// Writes `entry` into the next free slot; hands it back when the ring is full.
    pub fn push(&mut self, entry: Entry) -> (r: Result<(), Entry>)
        requires
            old(self).wf(),
        ensures
            final(self).wf(),
            final(self).capacity_spec() == old(self).capacity_spec(),
            final(self).published() == old(self).published(),
            final(self).flags_spec() == old(self).flags_spec(),
            final(self).dropped_spec() == old(self).dropped_spec(),
            old(self).pending().len() < old(self).capacity_spec() ==> {
                &&& r == Ok::<(), Entry>(())
                &&& final(self).pending() == old(self).pending().push(entry)
                &&& final(self).available_spec() == old(self).available_spec() - 1
            },
            old(self).pending().len() == old(self).capacity_spec() ==> {
                &&& r == Err::<(), Entry>(entry)
                &&& *final(self) == *old(self)
            },
    {
        let len = self.local_tail.wrapping_sub(self.head);
        if len >= self.ring_entries {
            return Err(entry);
        }
        let ghost pre = *self;
        let idx = self.local_tail & self.ring_mask;
        proof {
            lemma_slot_bound(self.local_tail, self.ring_mask, self.ring_entries);
        }
        self.sqes.set(idx as usize, entry);
        self.array.set(idx as usize, idx);
        self.local_tail = self.local_tail.wrapping_add(1);
        proof {
            let n: int = distance(pre.head, pre.local_tail) as int;
            lemma_step(pre.head, pre.local_tail);
            assert forall|i: int| 0 <= i < n implies self.slot_at(i) != idx as int by {
                lemma_step_from(pre.head, i, n);
                lemma_slots_differ(wrap(pre.head as int + i), (n - i) as u32, self.ring_mask, self.ring_entries);
                assert(wrap(pre.head as int + n) == pre.local_tail);
            }
            assert(self.array@ =~= pre.array@);
            assert(self.local_tail == wrap(pre.local_tail as int + 1));
            assert(distance(self.head, self.local_tail) == n + 1);
            assert(self.slot_at(n) == idx as int);
            assert(self.pending().len() == n + 1);
            assert forall|i: int| 0 <= i < n + 1 implies self.pending()[i] == pre.pending().push(entry)[i] by {
                lemma_slot_bound(wrap(self.head as int + i), self.ring_mask, self.ring_entries);
                assert(self.sqes@ == pre.sqes@.update(idx as int, entry));
                assert(self.pending()[i] == self.sqes@[self.slot_at(i)]);
                if i < n {
                    assert(self.slot_at(i) != idx as int);
                    assert(self.slot_at(i) == pre.slot_at(i));
                    assert(pre.pending()[i] == pre.sqes@[pre.slot_at(i)]);
                    assert(pre.pending().push(entry)[i] == pre.pending()[i]);
                } else {
                    assert(self.sqes@[idx as int] == entry);
                    assert(pre.pending().push(entry)[i] == entry);
                }
            }
            assert(self.pending() =~= pre.pending().push(entry));
        }
        Ok(())
    }

    /// Publishes every pushed entry to the kernel.
    pub fn sync(&mut self)
        requires
            old(self).wf(),
        ensures
            final(self).wf(),
            final(self).capacity_spec() == old(self).capacity_spec(),
            final(self).pending() == old(self).pending(),
            final(self).published() == old(self).pending().len(),
            final(self).flags_spec() == old(self).flags_spec(),
            final(self).dropped_spec() == old(self).dropped_spec(),
            old(self).published() == old(self).pending().len() ==> *final(self) == *old(self),
    {
        self.tail = self.local_tail;
    }

    /// The kernel side: takes the oldest published entry, through the index array.
    pub fn kernel_pop(&mut self) -> (r: Option<Entry>)
        requires
            old(self).wf(),
        ensures
            final(self).wf(),
            final(self).capacity_spec() == old(self).capacity_spec(),
            final(self).flags_spec() == old(self).flags_spec(),
            final(self).dropped_spec() == old(self).dropped_spec(),
            old(self).published() > 0 ==> {
                &&& r == Some(old(self).pending()[0])
                &&& final(self).pending() == old(self).pending().drop_first()
                &&& final(self).published() == old(self).published() - 1
                &&& final(self).available_spec() == old(self).available_spec() + 1
            },
            old(self).published() == 0 ==> r == None::<Entry> && *final(self) == *old(self),
    {
        proof {
            lemma_distance_zero(self.head, self.tail);
        }
        if self.tail == self.head {
            return None;
        }
        let ghost pre = *self;
        let idx = self.head & self.ring_mask;
        proof {
            lemma_slot_bound(self.head, self.ring_mask, self.ring_entries);
        }
        let slot = self.array[idx as usize];
        let entry = self.sqes[slot as usize];
        self.head = self.head.wrapping_add(1);
        proof {
            lemma_advance(pre.head, pre.local_tail);
            lemma_advance(pre.head, pre.tail);
            assert(wrap(pre.head as int + 0) == pre.head) by {
                lemma_step(pre.head, pre.head);
            }
            assert forall|i: int| 0 <= i < self.pending().len()
                implies self.pending()[i] == pre.pending().drop_first()[i] by {
                lemma_wrap_add(pre.head as int + 1, i);
                lemma_step(pre.head, pre.head);
                assert(wrap(self.head as int + i) == wrap(pre.head as int + (i + 1)));
            }
            assert(self.pending() =~= pre.pending().drop_first());
        }
        Some(entry)
    }

    /// Takes in the flag word read from the shared ring.
    pub fn observe_flags(&mut self, flags: u32)
        requires
            old(self).wf(),
        ensures
            final(self).wf(),
            final(self).flags_spec() == flags,
            final(self).capacity_spec() == old(self).capacity_spec(),
            final(self).pending() == old(self).pending(),
            final(self).published() == old(self).published(),
            final(self).dropped_spec() == old(self).dropped_spec(),
    {
        self.flags = flags;
    }

    /// Takes in the kernel's dropped counter read from the shared ring.
    pub fn observe_dropped(&mut self, n: u32)
        requires
            old(self).wf(),
        ensures
            final(self).wf(),
            final(self).dropped_spec() == n,
            final(self).flags_spec() == old(self).flags_spec(),
            final(self).capacity_spec() == old(self).capacity_spec(),
            final(self).pending() == old(self).pending(),
            final(self).published() == old(self).published(),
    {
        self.dropped = n;
    }

    /// Takes in the head read from the shared ring: the kernel has consumed
    /// every entry before it. Accepted only when it moves no further than the
    /// published entries; otherwise nothing changes.
    pub fn observe_head(&mut self, head: u32) -> (r: bool)
        requires
            old(self).wf(),
        ensures
            final(self).wf(),
            r == (distance(old(self).head_spec(), head) <= old(self).published()),
            r ==> {
                &&& final(self).head_spec() == head
                &&& final(self).pending() == old(self).pending().subrange(
                    distance(old(self).head_spec(), head) as int,
                    old(self).pending().len() as int,
                )
                &&& final(self).published() == old(self).published() - distance(old(self).head_spec(), head)
                &&& final(self).available_spec() == old(self).available_spec() + distance(old(self).head_spec(), head)
            },
            !r ==> *final(self) == *old(self),
            final(self).capacity_spec() == old(self).capacity_spec(),
            final(self).tail_spec() == old(self).tail_spec(),
            final(self).flags_spec() == old(self).flags_spec(),
            final(self).dropped_spec() == old(self).dropped_spec(),
    {
        if head.wrapping_sub(self.head) > self.tail.wrapping_sub(self.head) {
            return false;
        }
        let ghost pre = *self;
        self.head = head;
        proof {
            let d = distance(pre.head, head);
            lemma_distance_split(pre.head, head, pre.local_tail);
            lemma_distance_split(pre.head, head, pre.tail);
            lemma_step(pre.head, head);
            assert forall|i: int| 0 <= i < self.pending().len() implies self.pending()[i]
                == pre.pending().subrange(d as int, pre.pending().len() as int)[i] by {
                lemma_wrap_add(pre.head as int + d, i);
            }
            assert(self.pending() =~= pre.pending().subrange(d as int, pre.pending().len() as int));
        }
        true
    }

    /// Publishes every pushed entry: the entries to copy into the shared
    /// ring, each with its slot, and the tail to store after them.
    pub fn publish(&mut self) -> (r: (Vec<SlotWrite>, u32))
        requires
            old(self).wf(),
        ensures
            final(self).wf(),
            final(self).pending() == old(self).pending(),
            final(self).published() == old(self).pending().len(),
            final(self).head_spec() == old(self).head_spec(),
            final(self).capacity_spec() == old(self).capacity_spec(),
            final(self).flags_spec() == old(self).flags_spec(),
            final(self).dropped_spec() == old(self).dropped_spec(),
            r.1 == final(self).tail_spec(),
            r.0@.len() == old(self).pending().len() - old(self).published(),
            forall|k: int|
                0 <= k < r.0@.len() ==> r.0@[k] == (SlotWrite {
                    slot: old(self).slot_at(old(self).published() + k) as u32,
                    entry: old(self).pending()[old(self).published() + k],
                }),
    {
        let n = self.local_tail.wrapping_sub(self.tail);
        let mut writes: Vec<SlotWrite> = Vec::new();
        let mut i: u32 = 0;
        proof {
            lemma_distance_split(self.head, self.tail, self.local_tail);
            lemma_step(self.head, self.tail);
        }
        while i < n
            invariant
                self.wf(),
                n == distance(self.tail, self.local_tail),
                n == self.pending().len() - self.published(),
                self.tail == wrap(self.head as int + self.published()),
                i <= n,
                writes@.len() == i,
                forall|k: int|
                    0 <= k < i ==> writes@[k] == (SlotWrite {
                        slot: self.slot_at(self.published() + k) as u32,
                        entry: self.pending()[self.published() + k],
                    }),
            decreases n - i,
        {
            let pos = self.tail.wrapping_add(i);
            let slot = pos & self.ring_mask;
            proof {
                lemma_slot_bound(pos, self.ring_mask, self.ring_entries);
                lemma_wrap_add(self.head as int + self.published(), i as int);
                assert(pos == wrap(self.tail as int + i));
            }
            writes.push(SlotWrite { slot, entry: self.sqes[slot as usize] });
            i = i + 1;
        }
        self.tail = self.local_tail;
        (writes, self.tail)
    }
}

} // verus!
