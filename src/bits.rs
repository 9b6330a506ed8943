//! Single bits of 32-bit words.

use vstd::prelude::*;

verus! {

/// Word `w` with bit `n` set to `v`.
pub open spec fn with_bit(w: u32, n: u32, v: bool) -> u32 {
    if v {
        w | (1u32 << n)
    } else {
        w & !(1u32 << n)
    }
}

/// Bit `n` of word `w`.
pub open spec fn bit_of(w: u32, n: u32) -> bool {
    w & (1u32 << n) != 0
}

/// Facts on single bits of a word.
pub proof fn lemma_with_bit(w: u32, n: u32, v: bool)
    requires
        n < 32,
    ensures
        bit_of(with_bit(w, n, v), n) == v,
        forall|m: u32| m < 32 && m != n ==> bit_of(#[trigger] with_bit(w, n, v), m) == bit_of(w, m),
        with_bit(with_bit(w, n, v), n, v) == with_bit(w, n, v),
        with_bit(with_bit(w, n, true), n, false) == with_bit(w, n, false),
        !bit_of(w, n) ==> with_bit(w, n, false) == w,
{
    lemma_with_bit_bv(w, n);
}

proof fn lemma_with_bit_bv(w: u32, n: u32)
    by (bit_vector)
    requires
        n < 32,
    ensures
        (w | (1u32 << n)) & (1u32 << n) != 0,
        (w & !(1u32 << n)) & (1u32 << n) == 0,
        forall|m: u32|
            m < 32 && m != n ==> ((w | (1u32 << n)) & (1u32 << m) != 0) == (w & (1u32 << m) != 0),
        forall|m: u32|
            m < 32 && m != n ==> ((w & !(1u32 << n)) & (1u32 << m) != 0) == (w & (1u32 << m)
                != 0),
        (w | (1u32 << n)) | (1u32 << n) == w | (1u32 << n),
        (w & !(1u32 << n)) & !(1u32 << n) == w & !(1u32 << n),
        (w | (1u32 << n)) & !(1u32 << n) == w & !(1u32 << n),
        w & (1u32 << n) == 0 ==> w & !(1u32 << n) == w,
{
}

} // verus!
