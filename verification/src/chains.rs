//! Chains of things in the level memory: each thing names the next by the
//! 16-bit offset stored in one of its fields, 0 ending the chain.
use vstd::prelude::*;
use crate::mem::{u16_at, read_u16};

verus! {

/// The offset of the thing that the thing at `x` links to through `field`.
pub open spec fn link(m: Seq<u8>, x: int, field: int) -> int {
    u16_at(m, x + field) as int
}

/// Following the links at `field` from the thing at `x` ends within `n`
/// steps, through things whose link lies in the memory.
pub open spec fn chain_ends(m: Seq<u8>, x: int, field: int, n: nat) -> bool
    decreases n,
{
    &&& 0 <= x
    &&& 0 <= field
    &&& x + field + 2 <= m.len()
    &&& (link(m, x, field) == 0 || (n > 0 && chain_ends(m, link(m, x, field), field, (n - 1) as nat)))
}

/// The chain from `x` through `field` ends.
pub open spec fn chain_finite(m: Seq<u8>, x: int, field: int) -> bool {
    exists|n: nat| chain_ends(m, x, field, n)
}

/// The thing reached from `x` after at most `n` links.
pub open spec fn chain_last_within(m: Seq<u8>, x: int, field: int, n: nat) -> int
    decreases n,
{
    if n == 0 || link(m, x, field) == 0 {
        x
    } else {
        chain_last_within(m, link(m, x, field), field, (n - 1) as nat)
    }
}

/// The last thing of the chain from `x` through `field`.
pub open spec fn chain_last(m: Seq<u8>, x: int, field: int) -> int {
    chain_last_within(m, x, field, choose|n: nat| chain_ends(m, x, field, n))
}

proof fn lemma_chain_last_within(m: Seq<u8>, x: int, field: int, n: nat)
    requires
        chain_ends(m, x, field, n),
    ensures
        0 <= chain_last_within(m, x, field, n),
        chain_last_within(m, x, field, n) + field + 2 <= m.len(),
        link(m, chain_last_within(m, x, field, n), field) == 0,
    decreases n,
{
    if n > 0 && link(m, x, field) != 0 {
        lemma_chain_last_within(m, link(m, x, field), field, (n - 1) as nat);
    }
}

/// Finds the last thing of the chain from `x` through `field`.
pub fn last_in_chain(m: &Vec<u8>, x: usize, field: usize) -> (r: usize)
    requires
        chain_finite(m@, x as int, field as int),
    ensures
        r as int == chain_last(m@, x as int, field as int),
        r + field + 2 <= m@.len(),
        link(m@, r as int, field as int) == 0,
{
    let ghost n = choose|n: nat| chain_ends(m@, x as int, field as int, n);
    proof {
        lemma_chain_last_within(m@, x as int, field as int, n);
    }
    let len = m.len();
    let mut cur = x;
    let ghost mut k = n;
    loop
        invariant
            len == m@.len(),
            chain_ends(m@, cur as int, field as int, k),
            chain_last_within(m@, x as int, field as int, n) == chain_last_within(m@, cur as int, field as int, k),
            chain_last(m@, x as int, field as int) == chain_last_within(m@, x as int, field as int, n),
        decreases k,
    {
        let nx = read_u16(m, cur + field);
        if nx == 0 {
            proof {
                lemma_chain_last_within(m@, cur as int, field as int, k);
            }
            return cur;
        }
        cur = nx as usize;
        proof {
            k = (k - 1) as nat;
        }
    }
}

} // verus!
