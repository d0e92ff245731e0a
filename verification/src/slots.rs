//! Arithmetic on free-running 32-bit ring indices.
//!
//! A ring index only ever grows and wraps at 2^32. The slot it names is the
//! index masked with `size - 1`, where `size` is a power of two.

use vstd::prelude::*;

verus! {

/// `n` has exactly one bit set.
pub open spec fn is_power_of_two(n: u32) -> bool {
    n > 0 && n & ((n - 1) as u32) == 0
}

/// The slot of the descriptor array that the index names.
pub open spec fn slot_of(index: u32, mask: u32) -> int {
    (index & mask) as int
}

/// The index `by` steps after `index`, wrapping at 2^32.
pub open spec fn advance(index: u32, by: u32) -> u32 {
    index.wrapping_add(by)
}

/// How many steps `ahead` is in front of `behind`, counted modulo 2^32.
pub open spec fn distance(ahead: u32, behind: u32) -> u32 {
    ahead.wrapping_sub(behind)
}

/// The smaller of two counts.
pub open spec fn min_u32(a: u32, b: u32) -> u32 {
    if a <= b {
        a
    } else {
        b
    }
}

/// Decides whether `n` is a power of two.
pub fn check_power_of_two(n: u32) -> (r: bool)
    ensures
        r == is_power_of_two(n),
{
    n != 0 && n & (n - 1) == 0
}

/// Every index names a slot inside the array.
pub proof fn lemma_slot_in_range(index: u32, size: u32)
    requires
        is_power_of_two(size),
    ensures
        0 <= slot_of(index, (size - 1) as u32) < size,
{
    let mask = (size - 1) as u32;
    assert(index & mask <= mask) by (bit_vector);
}

/// Two indices less than `size` apart name different slots, also when the
/// later one has wrapped past 2^32.
pub proof fn lemma_slots_distinct(index: u32, by: u32, size: u32)
    requires
        is_power_of_two(size),
        0 < by < size,
    ensures
        slot_of(advance(index, by), (size - 1) as u32) != slot_of(index, (size - 1) as u32),
{
    let mask = (size - 1) as u32;
    assert(index.wrapping_add(by) & mask != index & mask) by (bit_vector)
        requires
            size > 0,
            mask == (size - 1) as u32,
            size & mask == 0,
            0 < by < size,
    ;
}

/// Advancing an index moves its slot by the same amount, as long as the end
/// of the array is not crossed; a wrap of the index at 2^32 changes nothing.
pub proof fn lemma_slot_advance(index: u32, by: u32, size: u32)
    requires
        is_power_of_two(size),
        slot_of(index, (size - 1) as u32) + by < size,
    ensures
        slot_of(advance(index, by), (size - 1) as u32) == slot_of(index, (size - 1) as u32) + by,
{
    let mask = (size - 1) as u32;
    assert(index.wrapping_add(by) & mask == (index & mask) + by) by (bit_vector)
        requires
            size > 0,
            mask == (size - 1) as u32,
            size & mask == 0,
            (index & mask) + by < size,
    ;
}

/// Crossing the end of the array continues at slot 0.
pub proof fn lemma_slot_wraps_to_start(index: u32, by: u32, size: u32)
    requires
        is_power_of_two(size),
        slot_of(index, (size - 1) as u32) + by == size,
    ensures
        slot_of(advance(index, by), (size - 1) as u32) == 0,
{
    let mask = (size - 1) as u32;
    assert(index.wrapping_add(by) & mask == 0) by (bit_vector)
        requires
            size > 0,
            mask == (size - 1) as u32,
            size & mask == 0,
            (index & mask) + by == size,
    ;
}

/// Two starting indices that name the same slot name the same slot after any
/// equal advance: the slot sequence depends on the start only through its
/// slot, whichever side of the 2^32 wrap it lies on.
pub proof fn lemma_same_slot_sequence(a: u32, b: u32, by: u32, size: u32)
    requires
        is_power_of_two(size),
        slot_of(a, (size - 1) as u32) == slot_of(b, (size - 1) as u32),
    ensures
        slot_of(advance(a, by), (size - 1) as u32) == slot_of(advance(b, by), (size - 1) as u32),
{
    let mask = (size - 1) as u32;
    assert(a.wrapping_add(by) & mask == b.wrapping_add(by) & mask) by (bit_vector)
        requires
            size > 0,
            mask == (size - 1) as u32,
            size & mask == 0,
            a & mask == b & mask,
    ;
}

/// Four steps from `0xFFFF_FFFE` visit the slots that four steps from `2`
/// visit, for every ring of at most four slots: there `0xFFFF_FFFE` and `2`
/// name the same slot.
pub proof fn lemma_wraparound_slot_sequence(size: u32, step: u32)
    requires
        is_power_of_two(size),
        size <= 4,
        step < 4,
    ensures
        slot_of(advance(0xFFFF_FFFE, step), (size - 1) as u32) == slot_of(
            advance(2, step),
            (size - 1) as u32,
        ),
{
    let mask = (size - 1) as u32;
    assert(0xFFFF_FFFEu32 & mask == 2u32 & mask) by (bit_vector)
        requires
            size > 0,
            mask == (size - 1) as u32,
            size & mask == 0,
            size <= 4,
    ;
    lemma_same_slot_sequence(0xFFFF_FFFE, 2, step, size);
}

/// After the wrap the slots go on where they would without it: the index
/// `0xFFFF_FFFE` advanced by `step` names the slot `step - 2` places after
/// slot 0, and the two steps before the wrap name the last two slots.
pub proof fn lemma_wraparound_continues(size: u32, step: u32)
    requires
        is_power_of_two(size),
        size >= 2,
        step < size,
    ensures
        step >= 2 ==> slot_of(advance(0xFFFF_FFFE, step), (size - 1) as u32) == step - 2,
        step < 2 ==> slot_of(advance(0xFFFF_FFFE, step), (size - 1) as u32) == size - 2 + step,
{
    let mask = (size - 1) as u32;
    assert(step >= 2 ==> 0xFFFF_FFFEu32.wrapping_add(step) & mask == step - 2) by (bit_vector)
        requires
            size >= 2,
            mask == (size - 1) as u32,
            size & mask == 0,
            step < size,
    ;
    assert(step < 2 ==> 0xFFFF_FFFEu32.wrapping_add(step) & mask == size - 2 + step)
        by (bit_vector)
        requires
            size >= 2,
            mask == (size - 1) as u32,
            size & mask == 0,
            step < size,
    ;
}

} // verus!
