//! The Merkle engine built on the permutation: a per-subtree annotation
//! (root, cardinality, maximum key) and a fixed-depth opening (branch).
//! Both digest a level of up to `WIDTH - 1` optional children as a
//! `WIDTH`-wide permutation input whose slot 0 is the occupancy bitmask and
//! whose slot `i + 1` is child `i`'s contribution.

use vstd::prelude::*;
use vstd::arithmetic::power2::pow2;

pub mod annotation;
pub mod branch;
pub mod leaf;

pub use annotation::{ArionAnnotation, KeyBound};
pub use branch::{ArionBranch, ArionLevel, DecodeError, TreeLevel};
pub use leaf::ArionLeaf;

use crate::field::{Fe, fe_modulus};
use crate::WIDTH;

verus! {

/// The occupancy bitmask of the first `k` children: bit `i` is set iff
/// child `i` is present.
pub open spec fn occupancy_mask(c: Seq<Option<Fe>>, k: int) -> int
    decreases k,
{
    if k <= 0 {
        0
    } else {
        occupancy_mask(c, k - 1) + if c[k - 1] is Some {
            pow2((k - 1) as nat) as int
        } else {
            0
        }
    }
}

/// The permutation pre-image of a level of children: slot 0 holds the
/// occupancy bitmask, slot `i + 1` holds child `i`'s contribution (zero
/// for an absent child).
pub open spec fn level_preimage(c: Seq<Option<Fe>>) -> Seq<int> {
    Seq::new(
        WIDTH as nat,
        |i: int|
            if i == 0 {
                occupancy_mask(c, (WIDTH - 1) as int)
            } else {
                match c[i - 1] {
                    Some(f) => f.value(),
                    None => 0,
                }
            },
    )
}

/// The occupancy bitmask of any prefix is below `pow2` of its length.
proof fn lemma_occupancy_mask_bound(c: Seq<Option<Fe>>, k: int)
    requires
        k >= 0,
    ensures
        0 <= occupancy_mask(c, k) < pow2(k as nat),
    decreases k,
{
    vstd::arithmetic::power2::lemma_pow2_pos(k as nat);
    if k > 0 {
        lemma_occupancy_mask_bound(c, k - 1);
        vstd::arithmetic::power2::lemma_pow2_unfold(k as nat);
    }
}

/// Builds the `WIDTH`-wide permutation pre-image of a level of children.
pub fn level_preimage_vec(children: &Vec<Option<Fe>>) -> (v: Vec<Fe>)
    requires
        children@.len() == WIDTH - 1,
    ensures
        v@.len() == WIDTH,
        crate::strategies::fe_values(v@) == level_preimage(children@),
        v@[0].wf(),
        forall|l: int|
            1 <= l < WIDTH ==> (match children@[l - 1] {
                Some(f) => #[trigger] v@[l] == f,
                None => v@[l].wf(),
            }),
{
    let mut mask: u64 = 0;
    let mut flag: u64 = 1;
    let mut contributions: Vec<Fe> = Vec::new();
    let mut i: usize = 0;
    proof {
        vstd::arithmetic::power2::lemma2_to64();
    }
    while i < WIDTH - 1
        invariant
            i <= WIDTH - 1,
            children@.len() == WIDTH - 1,
            contributions@.len() == i,
            flag as int == pow2(i as nat),
            mask as int == occupancy_mask(children@, i as int),
            mask < flag,
            forall|l: int|
                0 <= l < i ==> (match children@[l] {
                    Some(f) => #[trigger] contributions@[l] == f,
                    None => contributions@[l].wf() && contributions@[l].value() == 0,
                }),
        decreases WIDTH - 1 - i,
    {
        proof {
            lemma_occupancy_mask_bound(children@, i as int + 1);
            vstd::arithmetic::power2::lemma_pow2_unfold((i + 1) as nat);
            assert(pow2(i as nat + 1) == 2 * pow2(i as nat));
            vstd::arithmetic::power2::lemma2_to64();
            assert(pow2((WIDTH - 1) as nat) == 16);
        }
        match &children[i] {
            Some(f) => {
                mask = mask + flag;
                contributions.push(*f);
            },
            None => {
                contributions.push(Fe::zero());
            },
        }
        flag = flag * 2;
        i += 1;
    }
    let mut v: Vec<Fe> = Vec::new();
    proof {
        lemma_occupancy_mask_bound(children@, (WIDTH - 1) as int);
        vstd::arithmetic::power2::lemma2_to64();
    }
    v.push(Fe::from_u64(mask));
    let mut j: usize = 0;
    while j < WIDTH - 1
        invariant
            j <= WIDTH - 1,
            children@.len() == WIDTH - 1,
            contributions@.len() == WIDTH - 1,
            v@.len() == j + 1,
            v@[0].wf(),
            v@[0].value() == occupancy_mask(children@, (WIDTH - 1) as int),
            forall|l: int|
                0 <= l < WIDTH - 1 ==> (match children@[l] {
                    Some(f) => #[trigger] contributions@[l] == f,
                    None => contributions@[l].wf() && contributions@[l].value() == 0,
                }),
            forall|l: int| 1 <= l < j + 1 ==> (#[trigger] v@[l]) == contributions@[l - 1],
        decreases WIDTH - 1 - j,
    {
        v.push(contributions[j]);
        j += 1;
    }
    proof {
        assert(crate::strategies::fe_values(v@) =~= level_preimage(children@));
    }
    v
}

} // verus!
