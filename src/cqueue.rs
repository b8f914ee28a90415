//! The completion ring: the kernel produces, the process consumes.
use vstd::prelude::*;
use crate::ring::{
    distance, is_ring_size, lemma_advance, lemma_distance_split, lemma_distance_zero, lemma_slot_bound,
    lemma_slots_differ, lemma_step, lemma_step_from, lemma_wrap_add, wrap,
};

verus! {

/// A completion entry: the tag of the submission it answers and its result.
#[derive(Clone, Copy, Debug, PartialEq, Eq, Structural)]
pub struct Entry {
    pub user_data: u64,
    pub result: i32,
    pub flags: u32,
}

impl Entry {
    pub fn new(user_data: u64, result: i32) -> (r: Entry)
        ensures
            r.user_data == user_data,
            r.result == result,
            r.flags == 0,
    {
        Entry { user_data, result, flags: 0 }
    }
}

/// The completion ring as the process sees it.
///
/// `tail` is advanced by the kernel, `head` is the head published to it, and
/// `local_head` counts the entries taken, published or not.
pub struct CompletionQueue {
    head: u32,
    local_head: u32,
    tail: u32,
    ring_mask: u32,
    ring_entries: u32,
    overflow: u32,
    cqes: Vec<Entry>,
}

impl CompletionQueue {
    pub closed spec fn wf(&self) -> bool {
        &&& is_ring_size(self.ring_entries)
        &&& self.ring_mask == self.ring_entries - 1
        &&& self.cqes@.len() == self.ring_entries
        &&& distance(self.head, self.tail) <= self.ring_entries
        &&& distance(self.head, self.local_head) <= distance(self.head, self.tail)
    }

    /// The number of entries the ring holds.
    pub closed spec fn capacity_spec(&self) -> nat {
        self.ring_entries as nat
    }

    spec fn slot(&self, i: int) -> int {
        (wrap(self.local_head as int + i) & self.ring_mask) as int
    }

    /// The completions made visible and not yet taken, oldest first.
    pub closed spec fn ready(&self) -> Seq<Entry> {
        Seq::new(distance(self.local_head, self.tail), |i: int| self.cqes@[self.slot(i)])
    }

    /// How many taken completions have not been handed back to the kernel yet.
    pub closed spec fn unreleased(&self) -> nat {
        distance(self.head, self.local_head)
    }

    /// The head published to the kernel.
    pub closed spec fn head_spec(&self) -> u32 {
        self.head
    }

    /// The kernel's tail: one past the newest completion taken in.
    pub closed spec fn tail_spec(&self) -> u32 {
        self.tail
    }

    pub closed spec fn mask_spec(&self) -> u32 {
        self.ring_mask
    }

    /// The kernel's count of completions it could not deliver.
    pub closed spec fn overflow_spec(&self) -> u32 {
        self.overflow
    }

    /// How many slots the kernel sees as occupied.
    pub open spec fn occupied(&self) -> nat {
        self.unreleased() + self.ready().len()
    }

    /// An empty ring of `entries` slots.
    pub fn new(entries: u32) -> (r: CompletionQueue)
        requires
            is_ring_size(entries),
        ensures
            r.wf(),
            r.capacity_spec() == entries,
            r.ready() == Seq::<Entry>::empty(),
            r.unreleased() == 0,
            r.overflow_spec() == 0,
    {
        let mut cqes: Vec<Entry> = Vec::new();
        let mut i: u32 = 0;
        while i < entries
            invariant
                i <= entries,
                cqes@.len() == i,
            decreases entries - i,
        {
            cqes.push(Entry::new(0, 0));
            i = i + 1;
        }
        let r = CompletionQueue {
            head: 0,
            local_head: 0,
            tail: 0,
            ring_mask: entries - 1,
            ring_entries: entries,
            overflow: 0,
            cqes,
        };
        assert(r.ready() =~= Seq::<Entry>::empty());
        r
    }

    pub fn capacity(&self) -> (r: u32)
        requires
            self.wf(),
        ensures
            r == self.capacity_spec(),
    {
        self.ring_entries
    }

    /// The number of completions ready to be taken.
    pub fn len(&self) -> (r: u32)
        requires
            self.wf(),
        ensures
            r == self.ready().len(),
    {
        proof {
            lemma_distance_split(self.head, self.local_head, self.tail);
        }
        self.tail.wrapping_sub(self.local_head)
    }

    pub fn is_empty(&self) -> (r: bool)
        requires
            self.wf(),
        ensures
            r == (self.ready().len() == 0),
    {
        proof {
            lemma_distance_zero(self.local_head, self.tail);
        }
        self.tail == self.local_head
    }

    /// The kernel's count of completions it could not deliver.
    pub fn overflow(&self) -> (r: u32)
        ensures
            r == self.overflow_spec(),
    {
        self.overflow
    }

    /// Takes the oldest ready completion; the slot stays taken until `sync`.
    pub fn next(&mut self) -> (r: Option<Entry>)
        requires
            old(self).wf(),
        ensures
            final(self).wf(),
            final(self).capacity_spec() == old(self).capacity_spec(),
            final(self).overflow_spec() == old(self).overflow_spec(),
            old(self).ready().len() > 0 ==> {
                &&& r == Some(old(self).ready()[0])
                &&& final(self).ready() == old(self).ready().drop_first()
                &&& final(self).unreleased() == old(self).unreleased() + 1
            },
            old(self).ready().len() == 0 ==> r == None::<Entry> && *final(self) == *old(self),
    {
        proof {
            lemma_distance_zero(self.local_head, self.tail);
            lemma_distance_split(self.head, self.local_head, self.tail);
        }
        if self.tail == self.local_head {
            return None;
        }
        let ghost pre = *self;
        let idx = self.local_head & self.ring_mask;
        proof {
            lemma_slot_bound(self.local_head, self.ring_mask, self.ring_entries);
        }
        let entry = self.cqes[idx as usize];
        self.local_head = self.local_head.wrapping_add(1);
        proof {
            lemma_advance(pre.local_head, pre.tail);
            lemma_step(pre.head, pre.local_head);
            lemma_wrap_add(pre.head as int + distance(pre.head, pre.local_head), 1);
            lemma_step(pre.head, self.local_head);
            assert(wrap(pre.local_head as int + 0) == pre.local_head) by {
                lemma_step(pre.local_head, pre.local_head);
            }
            assert(distance(self.head, self.local_head) == pre.unreleased() + 1) by {
                lemma_step(pre.head, pre.local_head);
            }
            assert forall|i: int| 0 <= i < self.ready().len()
                implies self.ready()[i] == pre.ready().drop_first()[i] by {
                lemma_wrap_add(pre.local_head as int + 1, i);
            }
            assert(self.ready() =~= pre.ready().drop_first());
        }
        Some(entry)
    }

    /// Hands every taken slot back to the kernel.
    pub fn sync(&mut self)
        requires
            old(self).wf(),
        ensures
            final(self).wf(),
            final(self).capacity_spec() == old(self).capacity_spec(),
            final(self).ready() == old(self).ready(),
            final(self).unreleased() == 0,
            final(self).overflow_spec() == old(self).overflow_spec(),
            old(self).unreleased() == 0 ==> *final(self) == *old(self),
    {
        proof {
            lemma_distance_split(self.head, self.local_head, self.tail);
            lemma_distance_zero(self.local_head, self.local_head);
        }
        self.head = self.local_head;
    }

    /// The head to store into the shared ring.
    pub fn head_counter(&self) -> (r: u32)
        ensures
            r == self.head_spec(),
    {
        self.head
    }

    /// The kernel tail up to which completions have been taken in.
    pub fn tail_counter(&self) -> (r: u32)
        ensures
            r == self.tail_spec(),
    {
        self.tail
    }

    /// The slot of the shared ring that holds the next completion to take in,
    /// if a slot is free for it.
    pub fn post_slot(&self) -> (r: Option<u32>)
        requires
            self.wf(),
        ensures
            r is Some <==> self.occupied() < self.capacity_spec(),
            r matches Some(s) ==> s == self.tail_spec() & self.mask_spec() && s < self.capacity_spec(),
    {
        proof {
            lemma_distance_split(self.head, self.local_head, self.tail);
            lemma_slot_bound(self.tail, self.ring_mask, self.ring_entries);
        }
        if self.tail.wrapping_sub(self.head) >= self.ring_entries {
            None
        } else {
            Some(self.tail & self.ring_mask)
        }
    }

    /// Takes in the kernel's overflow counter read from the shared ring.
    pub fn observe_overflow(&mut self, n: u32)
        requires
            old(self).wf(),
        ensures
            final(self).wf(),
            final(self).overflow_spec() == n,
            final(self).ready() == old(self).ready(),
            final(self).unreleased() == old(self).unreleased(),
            final(self).capacity_spec() == old(self).capacity_spec(),
            final(self).head_spec() == old(self).head_spec(),
            final(self).tail_spec() == old(self).tail_spec(),
    {
        self.overflow = n;
    }

    /// The kernel side: posts a completion, or counts it as lost when every
    /// slot is occupied.
    pub fn kernel_push(&mut self, entry: Entry) -> (r: bool)
        requires
            old(self).wf(),
        ensures
            final(self).wf(),
            final(self).capacity_spec() == old(self).capacity_spec(),
            final(self).unreleased() == old(self).unreleased(),
            r == (old(self).occupied() < old(self).capacity_spec()),
            final(self).head_spec() == old(self).head_spec(),
            r ==> final(self).tail_spec() == old(self).tail_spec().wrapping_add(1),
            !r ==> final(self).tail_spec() == old(self).tail_spec(),
            r ==> final(self).ready() == old(self).ready().push(entry)
                && final(self).overflow_spec() == old(self).overflow_spec(),
            !r ==> final(self).ready() == old(self).ready()
                && final(self).overflow_spec() == old(self).overflow_spec().wrapping_add(1),
    {
        proof {
            lemma_distance_split(self.head, self.local_head, self.tail);
        }
        if self.tail.wrapping_sub(self.head) >= self.ring_entries {
            self.overflow = self.overflow.wrapping_add(1);
            return false;
        }
        let ghost pre = *self;
        let idx = self.tail & self.ring_mask;
        proof {
            lemma_slot_bound(self.tail, self.ring_mask, self.ring_entries);
        }
        self.cqes.set(idx as usize, entry);
        self.tail = self.tail.wrapping_add(1);
        proof {
            let n: int = distance(pre.local_head, pre.tail) as int;
            lemma_step(pre.local_head, pre.tail);
            lemma_step(pre.head, pre.tail);
            lemma_distance_split(self.head, self.local_head, self.tail);
            assert(distance(self.local_head, self.tail) == n + 1);
            assert(self.slot(n) == idx as int);
            assert forall|i: int| 0 <= i < n + 1 implies self.ready()[i] == pre.ready().push(entry)[i] by {
                lemma_slot_bound(wrap(self.local_head as int + i), self.ring_mask, self.ring_entries);
                if i < n {
                    lemma_step_from(pre.local_head, i, n);
                    lemma_slots_differ(wrap(pre.local_head as int + i), (n - i) as u32, self.ring_mask, self.ring_entries);
                    assert(self.slot(i) != idx as int);
                    assert(pre.ready().push(entry)[i] == pre.ready()[i]);
                } else {
                    assert(pre.ready().push(entry)[i] == entry);
                }
            }
            assert(self.ready() =~= pre.ready().push(entry));
        }
        true
    }
}

} // verus!
