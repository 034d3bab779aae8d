//! Walking-bit pattern generator.
//!
//! A single set bit walks from bit 0 up to the top bit, then back down,
//! with a period of twice the pattern width. At every index that is a
//! multiple of the full period the value is anchored to `1`. Requesting
//! walking zeros instead of walking ones complements each word, masked to
//! the pattern width.

use vstd::arithmetic::div_mod::lemma_mod_multiples_basic;
use vstd::arithmetic::div_mod::lemma_mod_multiples_vanish;
use vstd::prelude::*;

verus! {

/// The raw (walking-ones) word at index `i` of the 32-bit pattern.
///
/// `i % 64` locates the index within the current double lap: the first half
/// walks the bit upward from bit 0, the second half walks it downward from
/// bit 31, and the start of each double lap is anchored to `1`.
pub open spec fn walking_raw32(i: nat) -> u32 {
    let lap_pos = i % 64;
    let shift = (i % 32) as u32;
    if lap_pos == 0 {
        1u32
    } else if lap_pos < 32 {
        1u32 << shift
    } else {
        0x8000_0000u32 >> shift
    }
}

/// The word at index `i` of the 32-bit walking-bit pattern.
pub open spec fn walking_word32(i: nat, walking_ones: bool) -> u32 {
    if walking_ones {
        walking_raw32(i)
    } else {
        !walking_raw32(i)
    }
}

/// The whole 32-bit walking-bit pattern of the given length.
pub open spec fn walking_seq32(length: nat, walking_ones: bool) -> Seq<u32> {
    Seq::new(length, |i: int| walking_word32(i as nat, walking_ones))
}

/// Create a vector of walking bits (32-bit pattern width).
///
/// `length` is the number of output words; `walking_ones` selects a walking
/// 1s pattern instead of the default walking 0s.
pub fn make_walking_bit_data(length: usize, walking_ones: bool) -> (out: Vec<u32>)
    ensures
        out@.len() == length,
        forall|i: int| 0 <= i < length ==> out@[i] == walking_word32(i as nat, walking_ones),
        out@ == walking_seq32(length as nat, walking_ones),
{
    let mut out: Vec<u32> = Vec::new();
    let mut index: usize = 0;
    while index < length
        invariant
            index <= length,
            out@.len() == index,
            forall|i: int| 0 <= i < index ==> out@[i] == walking_word32(i as nat, walking_ones),
        decreases length - index,
    {
        let lap_pos: usize = index % 64;
        let shift: u32 = (index % 32) as u32;
        let raw: u32 = if lap_pos == 0 {
            1
        } else if lap_pos < 32 {
            1u32 << shift
        } else {
            0x8000_0000u32 >> shift
        };
        let value: u32 = if walking_ones {
            raw
        } else {
            !raw
        };
        out.push(value);
        index = index + 1;
    }
    proof {
        assert(out@ =~= walking_seq32(length as nat, walking_ones));
    }
    out
}

/// The raw (walking-ones) word at index `i` of the legacy 16-bit pattern,
/// before masking to the low 16 bits of the 32-bit container.
pub open spec fn walking_raw16(i: nat) -> u32 {
    let lap_pos = i % 32;
    let shift = (i % 16) as u32;
    if lap_pos == 0 {
        1u32
    } else if lap_pos < 16 {
        1u32 << shift
    } else {
        0x8000u32 >> shift
    }
}

/// The word at index `i` of the legacy 16-bit walking-bit pattern. Only the
/// low 16 bits of the container carry pattern information.
pub open spec fn walking_word16(i: nat, walking_ones: bool) -> u32 {
    if walking_ones {
        walking_raw16(i) & 0xFFFFu32
    } else {
        !walking_raw16(i) & 0xFFFFu32
    }
}

/// The whole legacy 16-bit walking-bit pattern of the given length.
pub open spec fn walking_seq16(length: nat, walking_ones: bool) -> Seq<u32> {
    Seq::new(length, |i: int| walking_word16(i as nat, walking_ones))
}

/// Create a vector of walking bits (legacy 16-bit pattern width, stored in
/// 32-bit containers with the high half always zero).
pub fn make_walking_bit_data16(length: usize, walking_ones: bool) -> (out: Vec<u32>)
    ensures
        out@.len() == length,
        forall|i: int| 0 <= i < length ==> out@[i] == walking_word16(i as nat, walking_ones),
        out@ == walking_seq16(length as nat, walking_ones),
{
    let mut out: Vec<u32> = Vec::new();
    let mut index: usize = 0;
    while index < length
        invariant
            index <= length,
            out@.len() == index,
            forall|i: int| 0 <= i < index ==> out@[i] == walking_word16(i as nat, walking_ones),
        decreases length - index,
    {
        let lap_pos: usize = index % 32;
        let shift: u32 = (index % 16) as u32;
        let raw: u32 = if lap_pos == 0 {
            1
        } else if lap_pos < 16 {
            1u32 << shift
        } else {
            0x8000u32 >> shift
        };
        let value: u32 = (if walking_ones {
            raw
        } else {
            !raw
        }) & 0xFFFF;
        out.push(value);
        index = index + 1;
    }
    proof {
        assert(out@ =~= walking_seq16(length as nat, walking_ones));
    }
    out
}

/// Complement law: at every index, the walking-ones pattern is the bitwise
/// complement of the walking-zeros pattern.
pub proof fn lemma_walking_complement32(length: nat, i: nat)
    requires
        i < length,
    ensures
        walking_seq32(length, true)[i as int] == !walking_seq32(length, false)[i as int],
{
    let r = walking_raw32(i);
    assert(!(!r) == r) by (bit_vector);
}

/// Complement law for the legacy width: at every index, the walking-ones
/// pattern is the complement of the walking-zeros pattern, masked to the low
/// 16 bits.
pub proof fn lemma_walking_complement16(length: nat, i: nat)
    requires
        i < length,
    ensures
        walking_seq16(length, true)[i as int] == !walking_seq16(length, false)[i as int]
            & 0xFFFFu32,
{
    let r = walking_raw16(i);
    assert(r & 0xFFFFu32 == !(!r & 0xFFFFu32) & 0xFFFFu32) by (bit_vector);
}

/// Anchor law: at every index that is a multiple of the double-lap period,
/// the walking-ones pattern is forced to `1`.
pub proof fn lemma_walking_anchor32(length: nat, k: nat)
    requires
        64 * k < length,
    ensures
        walking_seq32(length, true)[64 * k as int] == 1u32,
{
    lemma_mod_multiples_basic(k as int, 64);
}

/// Anchor law for the legacy width: at every multiple of its double-lap
/// period, the walking-ones pattern is forced to `1`.
pub proof fn lemma_walking_anchor16(length: nat, k: nat)
    requires
        32 * k < length,
    ensures
        walking_seq16(length, true)[32 * k as int] == 1u32,
{
    lemma_mod_multiples_basic(k as int, 32);
    assert(1u32 & 0xFFFFu32 == 1u32) by (bit_vector);
}

/// Period law: words a whole double-lap apart are equal, since the word at
/// an index depends only on that index's position within its double lap.
pub proof fn lemma_walking_periodic32(length: nat, i: nat, walking_ones: bool)
    requires
        i + 64 < length,
    ensures
        walking_seq32(length, walking_ones)[i as int] == walking_seq32(
            length,
            walking_ones,
        )[i + 64 as int],
{
    lemma_mod_multiples_vanish(1, i as int, 64);
    lemma_mod_multiples_vanish(2, i as int, 32);
}

/// Period law for the legacy width: words a whole double-lap apart are equal.
pub proof fn lemma_walking_periodic16(length: nat, i: nat, walking_ones: bool)
    requires
        i + 32 < length,
    ensures
        walking_seq16(length, walking_ones)[i as int] == walking_seq16(
            length,
            walking_ones,
        )[i + 32 as int],
{
    lemma_mod_multiples_vanish(1, i as int, 32);
    lemma_mod_multiples_vanish(2, i as int, 16);
}

/// Container law for the legacy width: every word of the pattern keeps the
/// high half of its 32-bit container zero.
pub proof fn lemma_walking16_fits(length: nat, i: nat, walking_ones: bool)
    requires
        i < length,
    ensures
        walking_seq16(length, walking_ones)[i as int] < 0x1_0000u32,
{
    let r = walking_raw16(i);
    assert(r & 0xFFFFu32 < 0x1_0000u32) by (bit_vector);
    assert(!r & 0xFFFFu32 < 0x1_0000u32) by (bit_vector);
}

/// Determinism law: two results of generating the 32-bit walking-bit pattern
/// with identical arguments are the same sequence.
pub proof fn lemma_walking32_deterministic(
    a: Seq<u32>,
    b: Seq<u32>,
    length: nat,
    walking_ones: bool,
)
    requires
        a == walking_seq32(length, walking_ones),
        b == walking_seq32(length, walking_ones),
    ensures
        a == b,
{
}

/// Determinism law: two results of generating the legacy 16-bit walking-bit
/// pattern with identical arguments are the same sequence.
pub proof fn lemma_walking16_deterministic(
    a: Seq<u32>,
    b: Seq<u32>,
    length: nat,
    walking_ones: bool,
)
    requires
        a == walking_seq16(length, walking_ones),
        b == walking_seq16(length, walking_ones),
    ensures
        a == b,
{
}

} // verus!
