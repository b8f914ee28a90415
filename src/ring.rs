//! Index arithmetic shared by both rings.
use vstd::prelude::*;

verus! {

/// One more than the largest `u32`: ring counters wrap modulo this.
pub open spec fn counter_modulus() -> int {
    0x1_0000_0000
}

/// The counter value `x` reduced to the range of a `u32`.
pub open spec fn wrap(x: int) -> u32 {
    (x % counter_modulus()) as u32
}

/// How far the counter `to` is ahead of the counter `from`.
pub open spec fn distance(from: u32, to: u32) -> nat {
    ((to as int - from as int) % counter_modulus()) as nat
}

/// A ring capacity: a power of two, with the mask `capacity - 1`.
pub open spec fn is_ring_size(n: u32) -> bool {
    0 < n <= 0x8000_0000 && n & ((n - 1) as u32) == 0
}

/// Two counters less than a ring's capacity apart fall into different slots.
pub proof fn lemma_slots_differ(a: u32, d: u32, m: u32, n: u32)
    requires
        is_ring_size(n),
        m == n - 1,
        0 < d <= m,
    ensures
        a & m != wrap(a + d) & m,
{
    let b = wrap(a + d);
    if a + d < counter_modulus() {
        assert(b == (a + d) as u32);
        assert(a & m != b & m) by (bit_vector)
            requires
                n & ((n - 1) as u32) == 0,
                m == (n - 1) as u32,
                n <= 0x8000_0000,
                0 < d <= m,
                b == (a + d) as u32,
        ;
    } else {
        let e: u32 = (0xffff_ffff - d + 1) as u32;
        assert(a == (b + e) as u32);
        assert(a & m != b & m) by (bit_vector)
            requires
                n & ((n - 1) as u32) == 0,
                m == (n - 1) as u32,
                n <= 0x8000_0000,
                0 < d <= m,
                e == ((0xffff_ffffu32 - d) as u32 + 1u32) as u32,
                a == (b + e) as u32,
        ;
    }
}

} // verus!
verus! {

/// A slot taken by masking lies inside the ring.
pub proof fn lemma_slot_bound(x: u32, m: u32, n: u32)
    requires
        is_ring_size(n),
        m == n - 1,
    ensures
        x & m < n,
{
    assert(x & m <= m) by (bit_vector);
}

/// Counting on from the counter `t` by one, and where `t` lies from `h`.
pub proof fn lemma_step(h: u32, t: u32)
    ensures
        wrap(h as int + distance(h, t)) == t,
        t.wrapping_add(1) == wrap(t as int + 1),
        distance(h, t) < counter_modulus() - 1 ==> distance(h, wrap(t as int + 1)) == distance(h, t) + 1,
{
}

/// The counter `n` places after `h` lies `n - i` places after the one `i` places after it.
pub proof fn lemma_step_from(h: u32, i: int, n: int)
    requires
        0 <= i <= n < counter_modulus(),
    ensures
        wrap(h as int + n) == wrap(wrap(h as int + i) + (n - i)),
{
    vstd::arithmetic::div_mod::lemma_add_mod_noop(h as int + i, n - i, counter_modulus());
    vstd::arithmetic::div_mod::lemma_mod_twice(h as int + i, counter_modulus());
}

} // verus!
verus! {

/// Reducing a counter before adding to it changes nothing.
pub proof fn lemma_wrap_add(x: int, y: int)
    ensures
        wrap(wrap(x) + y) == wrap(x + y),
{
    vstd::arithmetic::div_mod::lemma_add_mod_noop(x, y, counter_modulus());
    vstd::arithmetic::div_mod::lemma_mod_twice(x, counter_modulus());
    vstd::arithmetic::div_mod::lemma_mod_bound(x, counter_modulus());
}

/// Moving a counter one place towards `t` shortens the distance to `t` by one.
pub proof fn lemma_advance(h: u32, t: u32)
    requires
        distance(h, t) > 0,
    ensures
        h.wrapping_add(1) == wrap(h as int + 1),
        distance(wrap(h as int + 1), t) == distance(h, t) - 1,
{
}

/// Distances along the ring add up.
pub proof fn lemma_distance_split(a: u32, b: u32, c: u32)
    requires
        distance(a, b) <= distance(a, c),
    ensures
        distance(b, c) == distance(a, c) - distance(a, b),
{
}

/// The distance from a counter to itself is zero, and only to itself.
pub proof fn lemma_distance_zero(a: u32, b: u32)
    ensures
        (distance(a, b) == 0) == (a == b),
{
}

} // verus!
verus! {

/// Whether `n` can be a ring's capacity.
pub fn ring_size(n: u32) -> (r: bool)
    ensures
        r == is_ring_size(n),
{
    n > 0 && n <= 0x8000_0000 && n & (n - 1) == 0
}

} // verus!
