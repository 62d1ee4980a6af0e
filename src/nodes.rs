//! Sizes of the frequency and evaluation grids.
use vstd::prelude::*;
use vstd::arithmetic::power2::{pow2, lemma_pow2_unfold, lemma_pow2_pos, lemma_pow2_strictly_increases};
use vstd::arithmetic::power::lemma_pow0;

verus! {

/// Number of evaluation points of the density grid.
pub const DENSITY_POINTS: usize = 128;

/// The number of frequency nodes that an exponent asks for: 2 to that power,
/// where it fits in a `usize`.
pub open spec fn node_count_spec(exponent: nat) -> Option<usize> {
    if pow2(exponent) <= usize::MAX {
        Some(pow2(exponent) as usize)
    } else {
        None
    }
}

proof fn lemma_pow2_0()
    ensures
        pow2(0) == 1,
{
    lemma_pow0(2);
}

/// The number of frequency nodes, `2^exponent`; `None` where it does not fit in a `usize`.
pub fn node_count(exponent: usize) -> (r: Option<usize>)
    ensures
        r == node_count_spec(exponent as nat),
        r matches Some(n) ==> n >= 1,
{
    let mut n: usize = 1;
    let mut i: usize = 0;
    proof {
        lemma_pow2_0();
    }
    while i < exponent
        invariant
            i <= exponent,
            n as nat == pow2(i as nat),
            n >= 1,
        decreases exponent - i,
    {
        proof {
            lemma_pow2_unfold((i + 1) as nat);
            lemma_pow2_pos((i + 1) as nat);
        }
        match n.checked_mul(2) {
            Some(m) => {
                n = m;
                i = i + 1;
            },
            None => {
                proof {
                    if i + 1 < exponent {
                        lemma_pow2_strictly_increases((i + 1) as nat, exponent as nat);
                    }
                }
                return None;
            },
        }
    }
    Some(n)
}

} // verus!
