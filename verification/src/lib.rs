//! Reference implementations of the two workloads measured by the
//! benchmark suite: integer addition with two's-complement wraparound,
//! and reversal of a byte buffer.
//!
//! Every runtime under comparison must agree with these functions; their
//! contracts pin the expected result down exactly, so a disagreement is a
//! bug in the runtime adapter, not an ambiguity in the workload.

use vstd::prelude::*;

verus! {

/// The sum of `a` and `b` under 64-bit two's-complement wraparound.
pub open spec fn wrapped_sum_i64(a: i64, b: i64) -> i64 {
    if a + b > i64::MAX {
        (a + b - 0x1_0000_0000_0000_0000) as i64
    } else if a + b < i64::MIN {
        (a + b + 0x1_0000_0000_0000_0000) as i64
    } else {
        (a + b) as i64
    }
}

/// Adds two 64-bit integers with two's-complement wraparound.
pub fn add(a: i64, b: i64) -> (r: i64)
    ensures
        r == wrapped_sum_i64(a, b),
{
    a.wrapping_add(b)
}

/// The sum of `a` and `b` under 128-bit two's-complement wraparound.
pub open spec fn wrapped_sum_i128(a: i128, b: i128) -> i128 {
    if a + b > i128::MAX {
        (a + b - 0x1_0000_0000_0000_0000_0000_0000_0000_0000) as i128
    } else if a + b < i128::MIN {
        (a + b + 0x1_0000_0000_0000_0000_0000_0000_0000_0000) as i128
    } else {
        (a + b) as i128
    }
}

/// Adds two 128-bit integers with two's-complement wraparound.
pub fn add128(a: i128, b: i128) -> (r: i128)
    ensures
        r == wrapped_sum_i128(a, b),
{
    a.wrapping_add(b)
}

/// Returns the bytes of `input` in reverse order.
pub fn reverse_buff32(input: Vec<u8>) -> (r: Vec<u8>)
    ensures
        r@ == input@.reverse(),
{
    let n: usize = input.len();
    let mut result: Vec<u8> = Vec::new();
    let mut i: usize = 0;
    while i < n
        invariant
            i <= n,
            n == input@.len(),
            result@.len() == i,
            forall|j: int| 0 <= j < i ==> result@[j] == input@[n - 1 - j],
        decreases n - i,
    {
        result.push(input[n - 1 - i]);
        i = i + 1;
    }
    proof {
        assert(result@ =~= input@.reverse());
    }
    result
}

/// Reversal is an involution: reversing a byte sequence twice yields the
/// original sequence.
pub proof fn lemma_reverse_involutive(s: Seq<u8>)
    ensures
        s.reverse().reverse() == s,
{
    assert(s.reverse().reverse() =~= s);
}

} // verus!
