//! The per-subtree annotation: the Arion root of the subtree's level, the
//! count of leaves below it, and the maximum key among them.

use vstd::prelude::*;

use crate::field::Fe;
use crate::strategies::{spec_permute, ScalarStrategy};
use crate::tree::{level_preimage, level_preimage_vec};
use crate::WIDTH;

verus! {

/// The maximum key of a subtree: a bottom sentinel for an empty subtree,
/// or the greatest key among its leaves.
#[derive(Clone, Copy, PartialEq, Eq, Structural, Debug)]
pub enum KeyBound {
    /// No leaf below: smaller than every key.
    NegativeInfinity,
    /// The greatest key among the leaves below.
    Maximum(u64),
}

/// The strict order on key bounds: the bottom sentinel is below every
/// key, and keys compare as integers.
pub open spec fn spec_key_lt(a: KeyBound, b: KeyBound) -> bool {
    match b {
        KeyBound::Maximum(kb) => match a {
            KeyBound::NegativeInfinity => true,
            KeyBound::Maximum(ka) => ka < kb,
        },
        KeyBound::NegativeInfinity => false,
    }
}

/// The larger of two key bounds.
pub open spec fn key_max(a: KeyBound, b: KeyBound) -> KeyBound {
    if spec_key_lt(a, b) {
        b
    } else {
        a
    }
}

/// Whether `a` is strictly below `b` in the key-bound order.
pub fn key_lt(a: &KeyBound, b: &KeyBound) -> (r: bool)
    ensures
        r == spec_key_lt(*a, *b),
{
    match b {
        KeyBound::Maximum(kb) => match a {
            KeyBound::NegativeInfinity => true,
            KeyBound::Maximum(ka) => *ka < *kb,
        },
        KeyBound::NegativeInfinity => false,
    }
}

/// Annotation holding the root, cardinality, and the maximum key of a
/// subtree.
#[derive(Clone, Copy, Debug)]
pub struct ArionAnnotation {
    /// The Arion digest of the subtree's top level.
    pub arion_root: Fe,
    /// The count of leaves below this subtree.
    pub cardinality: u64,
    /// The maximum key among the leaves below, or the bottom sentinel.
    pub max_key: KeyBound,
}

/// The cardinality contributed by one optional child.
pub open spec fn child_card(c: Option<ArionAnnotation>) -> int {
    match c {
        Some(a) => a.cardinality as int,
        None => 0,
    }
}

/// The sum of the cardinalities of the first `k` children.
pub open spec fn cards_sum(c: Seq<Option<ArionAnnotation>>, k: int) -> int
    decreases k,
{
    if k <= 0 {
        0
    } else {
        cards_sum(c, k - 1) + child_card(c[k - 1])
    }
}

/// The sum of the cardinalities of all children.
pub open spec fn spec_cardinality(c: Seq<Option<ArionAnnotation>>) -> int {
    cards_sum(c, c.len() as int)
}

/// The maximum key bound among the first `k` children.
pub open spec fn keys_max(c: Seq<Option<ArionAnnotation>>, k: int) -> KeyBound
    decreases k,
{
    if k <= 0 {
        KeyBound::NegativeInfinity
    } else {
        match c[k - 1] {
            Some(a) => key_max(keys_max(c, k - 1), a.max_key),
            None => keys_max(c, k - 1),
        }
    }
}

/// The maximum key bound among all children.
pub open spec fn spec_max_key(c: Seq<Option<ArionAnnotation>>) -> KeyBound {
    keys_max(c, c.len() as int)
}

/// The contribution of each child to the digest pre-image: a present
/// child contributes its root.
pub open spec fn child_roots(c: Seq<Option<ArionAnnotation>>) -> Seq<Option<Fe>> {
    Seq::new(
        c.len(),
        |i: int|
            match c[i] {
                Some(a) => Some(a.arion_root),
                None => None,
            },
    )
}

/// The Arion root of a level of annotated children: slot 1 of the
/// permutation of the level's pre-image.
pub open spec fn spec_annotation_root(c: Seq<Option<ArionAnnotation>>) -> int {
    spec_permute(level_preimage(child_roots(c)))[1]
}

/// The annotation engine and the opening engine digest a level the same
/// way: a subtree's annotation root is slot 1 of the permutation of the
/// very pre-image an opening level built from the same children holds.
pub proof fn lemma_annotation_root_is_level_digest(c: Seq<Option<ArionAnnotation>>)
    ensures
        spec_annotation_root(c) == spec_permute(level_preimage(child_roots(c)))[1],
{
}

/// Prefix sums of cardinalities are monotone in the prefix length.
proof fn lemma_cards_sum_mono(c: Seq<Option<ArionAnnotation>>, k: int, l: int)
    requires
        0 <= k <= l,
    ensures
        cards_sum(c, k) <= cards_sum(c, l),
    decreases l - k,
{
    if k < l {
        lemma_cards_sum_mono(c, k, l - 1);
    }
}

impl ArionAnnotation {
    /// Recomputes a subtree's annotation from its level of up to
    /// `WIDTH - 1` optional children: the root is slot 1 of the permuted
    /// level pre-image, the cardinality is the sum of the children's
    /// cardinalities, and the maximum key is the greatest of theirs.
    ///
    /// A leaf is described to this function as a child whose root is the
    /// leaf's hash, whose cardinality is 1 and whose maximum key is the
    /// leaf's own key.
    pub fn from_children(children: &Vec<Option<ArionAnnotation>>) -> (r: ArionAnnotation)
        requires
            children@.len() == WIDTH - 1,
            spec_cardinality(children@) <= u64::MAX,
        ensures
            r.arion_root.wf(),
            r.arion_root.value() == spec_annotation_root(children@),
            r.cardinality as int == spec_cardinality(children@),
            r.max_key == spec_max_key(children@),
    {
        let mut roots: Vec<Option<Fe>> = Vec::new();
        let mut cardinality: u64 = 0;
        let mut max_key = KeyBound::NegativeInfinity;
        let mut i: usize = 0;
        while i < WIDTH - 1
            invariant
                i <= WIDTH - 1,
                children@.len() == WIDTH - 1,
                spec_cardinality(children@) <= u64::MAX,
                roots@.len() == i,
                forall|l: int| 0 <= l < i ==> (#[trigger] roots@[l]) == child_roots(children@)[l],
                cardinality as int == cards_sum(children@, i as int),
                max_key == keys_max(children@, i as int),
            decreases WIDTH - 1 - i,
        {
            proof {
                lemma_cards_sum_mono(children@, i as int + 1, children@.len() as int);
            }
            match &children[i] {
                Some(a) => {
                    roots.push(Some(a.arion_root));
                    cardinality = cardinality + a.cardinality;
                    if key_lt(&max_key, &a.max_key) {
                        max_key = a.max_key;
                    }
                },
                None => {
                    roots.push(None);
                },
            }
            i += 1;
        }
        proof {
            assert(roots@ =~= child_roots(children@));
        }
        let mut perm = level_preimage_vec(&roots);
        ScalarStrategy::new().perm(&mut perm);
        let arion_root = perm[1];
        ArionAnnotation { arion_root, cardinality, max_key }
    }
}

} // verus!
