//! Alternating-word pattern generator and its presets.
//!
//! The output alternates a seed word with its bitwise complement, starting
//! with the seed itself at index 0. The checkerboard and zeros/ones presets
//! are fixed-seed instances of the same generator.

use vstd::prelude::*;

verus! {

/// The word at index `i` of the 32-bit alternating pattern for `seed`.
pub open spec fn alternating_word32(seed: u32, i: nat) -> u32 {
    if i % 2 == 0 {
        seed
    } else {
        !seed
    }
}

/// The whole 32-bit alternating pattern of the given length.
pub open spec fn alternating_seq32(seed: u32, length: nat) -> Seq<u32> {
    Seq::new(length, |i: int| alternating_word32(seed, i as nat))
}

/// Create a vector of repeating words of a seed value XOR'd with 0 then
/// `u32::MAX`: the seed at every even index, its complement at every odd one.
pub fn make_xor_data(seed: u32, length: usize) -> (out: Vec<u32>)
    ensures
        out@.len() == length,
        forall|i: int| 0 <= i < length ==> out@[i] == alternating_word32(seed, i as nat),
        out@ == alternating_seq32(seed, length as nat),
{
    let mut out: Vec<u32> = Vec::new();
    let mut index: usize = 0;
    while index < length
        invariant
            index <= length,
            out@.len() == index,
            forall|i: int| 0 <= i < index ==> out@[i] == alternating_word32(seed, i as nat),
        decreases length - index,
    {
        let value: u32 = if index % 2 == 0 {
            seed
        } else {
            !seed
        };
        out.push(value);
        index = index + 1;
    }
    proof {
        assert(out@ =~= alternating_seq32(seed, length as nat));
    }
    out
}

/// Create a vector of repeating `0xAAAA_AAAA` and `0x5555_5555`.
pub fn make_as5s_data(length: usize) -> (out: Vec<u32>)
    ensures
        out@.len() == length,
        out@ == alternating_seq32(0xAAAA_AAAAu32, length as nat),
{
    make_xor_data(0xAAAA_AAAA, length)
}

/// Create a vector of repeating `0x0000_0000` and `0xFFFF_FFFF`.
pub fn make_0sfs_data(length: usize) -> (out: Vec<u32>)
    ensures
        out@.len() == length,
        out@ == alternating_seq32(0u32, length as nat),
{
    make_xor_data(0x0000_0000, length)
}

/// The word at index `i` of the legacy 16-bit alternating pattern for
/// `seed`: the seed at even indices, its complement at odd ones, each masked
/// to the low 16 bits of the 32-bit container.
pub open spec fn alternating_word16(seed: u32, i: nat) -> u32 {
    if i % 2 == 0 {
        seed & 0xFFFFu32
    } else {
        !seed & 0xFFFFu32
    }
}

/// The whole legacy 16-bit alternating pattern of the given length.
pub open spec fn alternating_seq16(seed: u32, length: nat) -> Seq<u32> {
    Seq::new(length, |i: int| alternating_word16(seed, i as nat))
}

/// Create a vector alternating a seed word with its complement (legacy
/// 16-bit pattern width, masked to the low 16 bits of the container).
pub fn make_xor_data16(seed: u32, length: usize) -> (out: Vec<u32>)
    ensures
        out@.len() == length,
        forall|i: int| 0 <= i < length ==> out@[i] == alternating_word16(seed, i as nat),
        out@ == alternating_seq16(seed, length as nat),
{
    let mut out: Vec<u32> = Vec::new();
    let mut index: usize = 0;
    while index < length
        invariant
            index <= length,
            out@.len() == index,
            forall|i: int| 0 <= i < index ==> out@[i] == alternating_word16(seed, i as nat),
        decreases length - index,
    {
        let value: u32 = (if index % 2 == 0 {
            seed
        } else {
            !seed
        }) & 0xFFFF;
        out.push(value);
        index = index + 1;
    }
    proof {
        assert(out@ =~= alternating_seq16(seed, length as nat));
    }
    out
}

/// Create a vector of repeating `0xAAAA` and `0x5555`.
pub fn make_as5s_data16(length: usize) -> (out: Vec<u32>)
    ensures
        out@.len() == length,
        out@ == alternating_seq16(0xAAAAu32, length as nat),
{
    make_xor_data16(0xAAAA, length)
}

/// Create a vector of repeating `0x0000` and `0xFFFF`.
pub fn make_0sfs_data16(length: usize) -> (out: Vec<u32>)
    ensures
        out@.len() == length,
        out@ == alternating_seq16(0u32, length as nat),
{
    make_xor_data16(0x0000, length)
}

/// Container law for the legacy width: every word of the pattern keeps the
/// high half of its 32-bit container zero.
pub proof fn lemma_alternating16_fits(seed: u32, length: nat, i: nat)
    requires
        i < length,
    ensures
        alternating_seq16(seed, length)[i as int] < 0x1_0000u32,
{
    assert(seed & 0xFFFFu32 < 0x1_0000u32) by (bit_vector);
    assert(!seed & 0xFFFFu32 < 0x1_0000u32) by (bit_vector);
}

/// Determinism law: two results of generating the 32-bit alternating pattern
/// with identical arguments are the same sequence.
pub proof fn lemma_alternating32_deterministic(a: Seq<u32>, b: Seq<u32>, seed: u32, length: nat)
    requires
        a == alternating_seq32(seed, length),
        b == alternating_seq32(seed, length),
    ensures
        a == b,
{
}

/// Determinism law: two results of generating the legacy 16-bit alternating
/// pattern with identical arguments are the same sequence.
pub proof fn lemma_alternating16_deterministic(a: Seq<u32>, b: Seq<u32>, seed: u32, length: nat)
    requires
        a == alternating_seq16(seed, length),
        b == alternating_seq16(seed, length),
    ensures
        a == b,
{
}

} // verus!
