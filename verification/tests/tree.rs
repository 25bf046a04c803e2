use core::borrow::Borrow;

use arion::field::Fe;
use arion::strategies::ScalarStrategy;
use arion::tree::{ArionAnnotation, ArionBranch, ArionLeaf, KeyBound, TreeLevel};
use arion::WIDTH;
use nstack::annotation::{Cardinality, Keyed, MaxKey};
use nstack::NStack;
use ranno::Annotation;

#[derive(Debug, Clone, Copy)]
struct TestLeaf {
    value: u64,
    pos: u64,
}

impl TestLeaf {
    fn new(value: u64) -> Self {
        TestLeaf { value, pos: 0 }
    }
}

impl ArionLeaf for TestLeaf {
    fn arion_hash(&self) -> Fe {
        // A simple injective payload hash is enough to exercise the
        // Merkle engine.
        Fe::from_u64(self.value.wrapping_mul(2654435761).wrapping_add(1))
    }

    fn pos(&self) -> &u64 {
        &self.pos
    }

    fn set_pos(&mut self, pos: u64) {
        self.pos = pos;
    }
}

impl Keyed<u64> for TestLeaf {
    fn key(&self) -> &u64 {
        &self.value
    }
}

#[derive(Debug, Clone)]
struct TestAnno {
    root: Fe,
    cardinality: Cardinality,
    max_key: MaxKey<u64>,
}

impl Default for TestAnno {
    fn default() -> Self {
        TestAnno {
            root: Fe::zero(),
            cardinality: Cardinality::from(0),
            max_key: MaxKey::NegativeInfinity,
        }
    }
}

impl Borrow<Cardinality> for TestAnno {
    fn borrow(&self) -> &Cardinality {
        &self.cardinality
    }
}

impl Borrow<MaxKey<u64>> for TestAnno {
    fn borrow(&self) -> &MaxKey<u64> {
        &self.max_key
    }
}

fn to_max_key(k: KeyBound) -> MaxKey<u64> {
    match k {
        KeyBound::NegativeInfinity => MaxKey::NegativeInfinity,
        KeyBound::Maximum(k) => MaxKey::Maximum(k),
    }
}

fn to_key_bound(k: &MaxKey<u64>) -> KeyBound {
    match k {
        MaxKey::NegativeInfinity => KeyBound::NegativeInfinity,
        MaxKey::Maximum(k) => KeyBound::Maximum(*k),
    }
}

fn anno_children<L>(stack: &NStack<L, TestAnno>) -> Vec<Option<ArionAnnotation>>
where
    L: ArionLeaf + Keyed<u64>,
{
    let mut children: Vec<Option<ArionAnnotation>> = Vec::new();
    match stack {
        NStack::Leaf(leaf) => {
            for l in leaf.iter() {
                children.push(l.as_ref().map(|l| ArionAnnotation {
                    arion_root: l.arion_hash(),
                    cardinality: 1,
                    max_key: KeyBound::Maximum(*l.key()),
                }));
            }
        }
        NStack::Node(node) => {
            for n in node.iter() {
                children.push(n.as_ref().map(|a| {
                    let anno = a.anno();
                    ArionAnnotation {
                        arion_root: anno.root,
                        cardinality: *anno.cardinality,
                        max_key: to_key_bound(&anno.max_key),
                    }
                }));
            }
        }
    }
    children
}

impl<L> Annotation<NStack<L, TestAnno>> for TestAnno
where
    L: ArionLeaf + Keyed<u64>,
{
    fn from_child(stack: &NStack<L, TestAnno>) -> Self {
        let computed = ArionAnnotation::from_children(&anno_children(stack));
        TestAnno {
            root: computed.arion_root,
            cardinality: Cardinality::from(computed.cardinality),
            max_key: to_max_key(computed.max_key),
        }
    }
}

fn tree_levels(
    b: &microkelvin::Branch<NStack<TestLeaf, TestAnno>, TestAnno>,
    depth: usize,
) -> Vec<TreeLevel> {
    let mut out = Vec::new();
    for level in b.levels().iter().rev() {
        let index = level.index() as u64;
        let mut children: Vec<Option<Fe>> = Vec::new();
        match &**level {
            NStack::Leaf(l) => {
                for leaf in l.iter() {
                    children.push(leaf.as_ref().map(|lf| lf.arion_hash()));
                }
            }
            NStack::Node(n) => {
                for node in n.iter() {
                    children.push(node.as_ref().map(|a| a.anno().root));
                }
            }
        }
        out.push(TreeLevel { index, children });
    }
    out.truncate(depth);
    out
}

struct TestTree<const DEPTH: usize> {
    inner: NStack<TestLeaf, TestAnno>,
}

impl<const DEPTH: usize> TestTree<DEPTH> {
    fn new() -> Self {
        TestTree { inner: NStack::new() }
    }

    fn push(&mut self, mut leaf: TestLeaf) -> u64 {
        let anno = TestAnno::from_child(&self.inner);
        let pos = *anno.cardinality;
        leaf.set_pos(pos);
        self.inner.push(leaf);
        pos
    }

    fn annotation(&self) -> TestAnno {
        TestAnno::from_child(&self.inner)
    }

    fn branch(&self, n: u64) -> Option<ArionBranch<DEPTH>> {
        self.inner
            .nth(n)
            .map(|b| ArionBranch::from_levels(&tree_levels(&b, DEPTH)))
    }

    fn root(&self) -> Fe {
        self.branch(0)
            .map(|b| *b.root())
            .unwrap_or(ArionBranch::<DEPTH>::null_root())
    }
}

/// Digest of a level's raw pre-image: slot 1 of the permuted vector.
fn digest(level: &[Fe]) -> Fe {
    let mut perm: Vec<Fe> = level.to_vec();
    ScalarStrategy::new().perm(&mut perm);
    perm[1]
}

/// Digest of a level's pre-image with the occupancy flag forced to 1.
fn digest_flagged(level: &[Fe]) -> Fe {
    let mut perm: Vec<Fe> = level.to_vec();
    perm[0] = Fe::from_u64(1);
    ScalarStrategy::new().perm(&mut perm);
    perm[1]
}

#[test]
fn empty_tree_root_is_null() {
    let tree: TestTree<2> = TestTree::new();
    assert!(tree.branch(0).is_none());
    assert_eq!(tree.root(), ArionBranch::<2>::null_root());
    assert_eq!(tree.root(), Fe::zero());
}

#[test]
fn annotation_of_single_leaf() {
    let mut tree: TestTree<2> = TestTree::new();
    tree.push(TestLeaf::new(7));
    let anno = tree.annotation();
    assert_eq!(*anno.cardinality, 1);
    assert_eq!(anno.max_key, MaxKey::Maximum(7));

    // The annotation digests [mask, h, 0, 0, 0] with only bit 0 set.
    let mut expected = vec![Fe::zero(); WIDTH];
    expected[0] = Fe::from_u64(1);
    expected[1] = TestLeaf::new(7).arion_hash();
    assert_eq!(anno.root, digest(&expected));
}

#[test]
fn annotation_tracks_cardinality_and_max_key() {
    let mut tree: TestTree<3> = TestTree::new();
    for k in 0..9u64 {
        tree.push(TestLeaf::new(k));
        let anno = tree.annotation();
        assert_eq!(*anno.cardinality, k + 1);
        assert_eq!(anno.max_key, MaxKey::Maximum(k));
    }
}

#[test]
fn annotation_with_equal_keys() {
    // The maximum key only moves on a strictly greater key, so equal
    // keys leave it in place.
    let mut children: Vec<Option<ArionAnnotation>> = vec![None; WIDTH - 1];
    children[0] = Some(ArionAnnotation {
        arion_root: Fe::from_u64(11),
        cardinality: 1,
        max_key: KeyBound::Maximum(5),
    });
    children[1] = Some(ArionAnnotation {
        arion_root: Fe::from_u64(22),
        cardinality: 2,
        max_key: KeyBound::Maximum(5),
    });
    children[2] = Some(ArionAnnotation {
        arion_root: Fe::from_u64(33),
        cardinality: 3,
        max_key: KeyBound::Maximum(3),
    });
    let anno = ArionAnnotation::from_children(&children);
    assert_eq!(anno.cardinality, 6);
    assert_eq!(anno.max_key, KeyBound::Maximum(5));
}

#[test]
fn annotation_with_sparse_children() {
    // Present children at slots 0 and 2 only: the occupancy bitmask is
    // 0b101, and the digest pre-image carries their roots in slots 1
    // and 3.
    let mut children: Vec<Option<ArionAnnotation>> = vec![None; WIDTH - 1];
    children[0] = Some(ArionAnnotation {
        arion_root: Fe::from_u64(11),
        cardinality: 1,
        max_key: KeyBound::Maximum(1),
    });
    children[2] = Some(ArionAnnotation {
        arion_root: Fe::from_u64(33),
        cardinality: 4,
        max_key: KeyBound::Maximum(9),
    });
    let anno = ArionAnnotation::from_children(&children);
    assert_eq!(anno.cardinality, 5);
    assert_eq!(anno.max_key, KeyBound::Maximum(9));

    let mut preimage = vec![Fe::zero(); WIDTH];
    preimage[0] = Fe::from_u64(0b101);
    preimage[1] = Fe::from_u64(11);
    preimage[3] = Fe::from_u64(33);
    assert_eq!(anno.arion_root, digest(&preimage));
}

#[test]
fn five_leaves_branch_zero() {
    // Five leaves with keys 0..4 in a tree of branching factor
    // WIDTH - 1 = 4 and depth 2.
    let mut tree: TestTree<2> = TestTree::new();
    for k in 0..5u64 {
        let pos = tree.push(TestLeaf::new(k));
        assert_eq!(pos, k);
    }

    let branch = tree.branch(0).expect("leaf 0 must be reachable");

    // Leaf 0 sits in slot 0 of its group: the level's offset is 1 and
    // its offset flag has exactly the bit for that slot set.
    assert_eq!(branch.path[0].index(), 1);
    assert_eq!(branch.path[0].offset_flag(), 1);

    // The level embeds leaf 0's own hash at the opened slot.
    assert_eq!(branch.path[0].child(), TestLeaf::new(0).arion_hash());

    // The first group holds four leaves, so its occupancy bitmask has
    // the low four bits set.
    assert_eq!(branch.path[0].level[0], Fe::from_u64(0b1111));

    // The reconstructed chain: the leaf level's digest is embedded in
    // the level above at the opened slot, and the top level digested
    // with the occupancy flag forced to 1 gives the branch root, which
    // is the tree's own root.
    let d0 = digest(&branch.path[0].level);
    let top = &branch.path[1];
    assert_eq!(top.level[top.index() as usize], d0);
    assert_eq!(digest_flagged(&top.level), *branch.root());
    assert_eq!(tree.root(), *branch.root());
}

#[test]
fn merkle_round_trip() {
    let mut tree: TestTree<3> = TestTree::new();
    let count = 9u64;
    for k in 0..count {
        tree.push(TestLeaf::new(k));
    }
    let root = tree.root();
    for i in 0..count {
        let branch = tree.branch(i).expect("every leaf must be reachable");

        // The opened slot of the leaf level holds leaf i's hash.
        let leaf_level = &branch.path[0];
        assert_eq!(leaf_level.child(), TestLeaf::new(i).arion_hash());

        // Every level's digest is embedded in the level above at its
        // opened slot.
        for k in 0..(branch.path.len() - 1) {
            let d = digest(&branch.path[k].level);
            let up = &branch.path[k + 1];
            assert_eq!(up.level[up.index() as usize], d);
        }

        // The top level, digested with the flag forced to 1, is the
        // cached root, and every opening reproduces the same root.
        let top = &branch.path[branch.path.len() - 1];
        assert_eq!(digest_flagged(&top.level), *branch.root());
        assert_eq!(*branch.root(), root);
    }
}

#[test]
fn built_branches_verify() {
    let mut tree: TestTree<3> = TestTree::new();
    for k in 0..6u64 {
        tree.push(TestLeaf::new(k));
    }
    for i in 0..6u64 {
        let branch = tree.branch(i).expect("every leaf must be reachable");
        assert!(branch.verify());

        // A serialization round trip preserves the opening.
        let bytes = branch.to_bytes();
        let back = arion::tree::ArionBranch::<3>::from_bytes(&bytes)
            .expect("round trip must succeed");
        assert!(back.verify());
        assert_eq!(back, branch);
    }
}

#[test]
fn tampered_branch_fails_verification() {
    let mut tree: TestTree<2> = TestTree::new();
    for k in 0..5u64 {
        tree.push(TestLeaf::new(k));
    }
    let branch = tree.branch(2).expect("leaf 2 must be reachable");
    assert!(branch.verify());

    // Changing an opened value breaks the chain.
    let mut forged = branch.clone();
    forged.path[0].level[1] = TestLeaf::new(99).arion_hash();
    assert!(!forged.verify());

    // Changing the cached root breaks the top check.
    let mut forged = branch.clone();
    forged.root = Fe::from_u64(1234);
    assert!(!forged.verify());
}

#[test]
fn branch_level_agrees_with_annotation() {
    // The digest a branch level reproduces is exactly the annotation
    // the tree computed for that subtree.
    let mut tree: TestTree<2> = TestTree::new();
    for k in 0..4u64 {
        tree.push(TestLeaf::new(k));
    }
    let anno = tree.annotation();
    let branch = tree.branch(0).expect("leaf 0 must be reachable");
    assert_eq!(digest(&branch.path[0].level), anno.root);
}
