//! The Merkle opening: a fixed-depth path of levels from a leaf's level to
//! the canonical root, each level holding the raw permutation pre-image
//! that was digested to produce the level above it.

use vstd::prelude::*;
use vstd::arithmetic::power2::pow2;
use vstd::bytes::{spec_u64_from_le_bytes, spec_u64_to_le_bytes, u64_from_le_bytes,
    u64_to_le_bytes};
use vstd::slice::slice_subrange;

use crate::field::{Fe, fe_bytes_valid, spec_fe_bytes, spec_limbs_of_bytes};
use crate::strategies::{all_wf, fe_values, spec_permute, ScalarStrategy};
use crate::tree::{level_preimage, level_preimage_vec};
use crate::WIDTH;

verus! {

/// Why a byte buffer failed to decode.
#[derive(Clone, Copy, PartialEq, Eq, Structural, Debug)]
pub enum DecodeError {
    /// The buffer does not have the exact serialized size.
    Truncated,
    /// A field-element encoding in the buffer is out of range.
    InvalidEncoding,
}

/// Represents a level of a branch on a given depth: the raw `WIDTH`-wide
/// pre-image digested to produce this level's digest, and the 1-based
/// slot of the opened child within it.
#[derive(Clone, Debug, PartialEq)]
pub struct ArionLevel {
    /// The pre-image: slot 0 is the occupancy bitmask, slots 1 and up are
    /// the children's contributions.
    pub level: Vec<Fe>,
    /// The 1-based slot of the opened child; the first child slot is 1
    /// because slot 0 carries the bitmask.
    pub index: u64,
}

impl ArionLevel {
    /// Well-formed: exactly `WIDTH` entries, all canonical.
    pub open spec fn wf(self) -> bool {
        &&& self.level@.len() == WIDTH
        &&& all_wf(self.level@)
    }

    /// The offset of the opened child for this level's path: the first
    /// position in a level set is offset 1, because the permutation
    /// pre-image prepends the occupancy bitmask.
    pub fn index(&self) -> (r: u64)
        ensures
            r == self.index,
    {
        self.index
    }

    /// The current level offset as a bitflag: the least significant bit
    /// stands for offset 1, and each further offset shifts it left by
    /// one.
    pub fn offset_flag(&self) -> (r: u64)
        requires
            1 <= self.index <= 64,
        ensures
            r == pow2((self.index - 1) as nat),
    {
        proof {
            vstd::arithmetic::power2::lemma_pow2_pos((self.index - 1) as nat);
            vstd::arithmetic::power2::lemma_pow2_adds((self.index - 1) as nat, (64 - self.index) as nat);
            vstd::arithmetic::power2::lemma2_to64_rest();
            vstd::arithmetic::power2::lemma2_to64();
            assert(pow2((self.index - 1) as nat) <= u64::MAX) by {
                vstd::arithmetic::power::lemma_pow_increases(
                    2,
                    (self.index - 1) as nat,
                    63,
                );
                vstd::arithmetic::power2::lemma_pow2(63);
                vstd::arithmetic::power2::lemma_pow2((self.index - 1) as nat);
            }
            vstd::bits::lemma_u64_shl_is_mul(1u64, (self.index - 1) as u64);
        }
        1u64 << (self.index - 1)
    }

    /// The opened child's own value at this depth: the entry of the
    /// pre-image at the opened slot.
    pub fn child(&self) -> (r: Fe)
        requires
            self.index < WIDTH,
            self.level@.len() == WIDTH,
        ensures
            r == self.level@[self.index as int],
    {
        self.level[self.index as usize]
    }
}

impl Default for ArionLevel {
    fn default() -> (r: ArionLevel)
        ensures
            r.wf(),
            r.index == 0,
            forall|i: int| 0 <= i < WIDTH ==> fe_values(r.level@)[i] == 0,
    {
        let mut level: Vec<Fe> = Vec::new();
        let mut i: usize = 0;
        while i < WIDTH
            invariant
                i <= WIDTH,
                level@.len() == i,
                forall|l: int|
                    0 <= l < i ==> (#[trigger] level@[l]).wf() && level@[l].value() == 0,
            decreases WIDTH - i,
        {
            level.push(Fe::zero());
            i += 1;
        }
        ArionLevel { level, index: 0 }
    }
}

/// The concatenation of the canonical encodings of the first `k` field
/// elements of a sequence.
pub open spec fn fe_seq_bytes(s: Seq<Fe>, k: int) -> Seq<u8>
    decreases k,
{
    if k <= 0 {
        Seq::empty()
    } else {
        fe_seq_bytes(s, k - 1) + spec_fe_bytes(s[k - 1])
    }
}

/// The serialized form of a level: `WIDTH` field-element encodings
/// followed by the 8-byte little-endian index.
pub open spec fn spec_level_bytes(lv: ArionLevel) -> Seq<u8> {
    fe_seq_bytes(lv.level@, WIDTH as int) + spec_u64_to_le_bytes(lv.index)
}

/// The `k`-th 32-byte field-element chunk of a serialized level.
pub open spec fn level_chunk(s: Seq<u8>, k: int) -> Seq<u8> {
    s.subrange(32 * k, 32 * k + 32)
}

/// Whether a byte string is a valid serialized level: the exact size,
/// with every field-element chunk canonical.
pub open spec fn level_bytes_valid(s: Seq<u8>) -> bool {
    &&& s.len() == WIDTH * 32 + 8
    &&& forall|k: int| 0 <= k < WIDTH ==> fe_bytes_valid(#[trigger] level_chunk(s, k))
}

proof fn lemma_fe_seq_bytes_len(s: Seq<Fe>, k: int)
    requires
        k >= 0,
    ensures
        fe_seq_bytes(s, k).len() == 32 * k,
    decreases k,
{
    vstd::bytes::lemma_auto_spec_u64_to_from_le_bytes();
    if k > 0 {
        lemma_fe_seq_bytes_len(s, k - 1);
    }
}

proof fn lemma_fe_seq_bytes_chunk(s: Seq<Fe>, k: int, j: int)
    requires
        0 <= j < k,
    ensures
        fe_seq_bytes(s, k).subrange(32 * j, 32 * j + 32) == spec_fe_bytes(s[j]),
    decreases k,
{
    lemma_fe_seq_bytes_len(s, k - 1);
    vstd::bytes::lemma_auto_spec_u64_to_from_le_bytes();
    if j == k - 1 {
        assert(fe_seq_bytes(s, k).subrange(32 * j, 32 * j + 32) =~= spec_fe_bytes(s[j]));
    } else {
        lemma_fe_seq_bytes_chunk(s, k - 1, j);
        assert(fe_seq_bytes(s, k).subrange(32 * j, 32 * j + 32) =~= fe_seq_bytes(
            s,
            k - 1,
        ).subrange(32 * j, 32 * j + 32));
    }
}

proof fn lemma_fe_seq_bytes_from_chunks(s: Seq<Fe>, b: Seq<u8>, k: int)
    requires
        0 <= k,
        b.len() >= 32 * k,
        forall|j: int| 0 <= j < k ==> spec_fe_bytes(s[j]) == #[trigger] level_chunk(b, j),
    ensures
        fe_seq_bytes(s, k) == b.subrange(0, 32 * k),
    decreases k,
{
    if k == 0 {
        assert(fe_seq_bytes(s, 0) =~= b.subrange(0, 0));
    } else {
        lemma_fe_seq_bytes_from_chunks(s, b, k - 1);
        assert(spec_fe_bytes(s[k - 1]) == level_chunk(b, k - 1));
        vstd::bytes::lemma_auto_spec_u64_to_from_le_bytes();
        lemma_fe_seq_bytes_len(s, k - 1);
        assert(fe_seq_bytes(s, k) =~= b.subrange(0, 32 * k));
    }
}

/// The level layer of the encode-decode round trip: a well-formed
/// level's serialization is valid, every chunk of it reads back as the
/// same limbs, and the index chunk reads back as the same index.
pub proof fn lemma_level_bytes_round_trip(lv: ArionLevel)
    requires
        lv.wf(),
    ensures
        level_bytes_valid(spec_level_bytes(lv)),
        forall|k: int|
            0 <= k < WIDTH ==> spec_limbs_of_bytes(level_chunk(spec_level_bytes(lv), k)) == (
            #[trigger] lv.level@[k]).limbs@,
        spec_u64_from_le_bytes(
            spec_level_bytes(lv).subrange(WIDTH as int * 32, WIDTH as int * 32 + 8),
        ) == lv.index,
{
    let s = spec_level_bytes(lv);
    vstd::bytes::lemma_auto_spec_u64_to_from_le_bytes();
    lemma_fe_seq_bytes_len(lv.level@, WIDTH as int);
    assert forall|k: int| 0 <= k < WIDTH implies fe_bytes_valid(#[trigger] level_chunk(s, k))
        && spec_limbs_of_bytes(level_chunk(s, k)) == lv.level@[k].limbs@ by {
        lemma_fe_seq_bytes_chunk(lv.level@, WIDTH as int, k);
        assert(level_chunk(s, k) =~= fe_seq_bytes(lv.level@, WIDTH as int).subrange(
            32 * k,
            32 * k + 32,
        ));
        crate::field::lemma_fe_bytes_round_trip(lv.level@[k]);
    }
    assert(s.subrange(WIDTH as int * 32, WIDTH as int * 32 + 8) =~= spec_u64_to_le_bytes(
        lv.index,
    ));
}

impl ArionLevel {
    /// Serializes the level: `WIDTH` field-element encodings followed by
    /// the 8-byte little-endian index.
    pub fn to_bytes(&self) -> (r: Vec<u8>)
        requires
            self.level@.len() == WIDTH,
        ensures
            r@ == spec_level_bytes(*self),
            r@.len() == WIDTH * 32 + 8,
    {
        let mut out: Vec<u8> = Vec::new();
        let mut k: usize = 0;
        while k < WIDTH
            invariant
                k <= WIDTH,
                self.level@.len() == WIDTH,
                out@ == fe_seq_bytes(self.level@, k as int),
                out@.len() == 32 * k,
            decreases WIDTH - k,
        {
            let mut b = self.level[k].to_bytes();
            out.append(&mut b);
            k += 1;
        }
        let mut ib = u64_to_le_bytes(self.index);
        out.append(&mut ib);
        proof {
            vstd::bytes::lemma_auto_spec_u64_to_from_le_bytes();
        }
        out
    }

    /// Decodes a serialized level; fails on a buffer of the wrong size
    /// or an out-of-range field-element encoding.
    pub fn from_bytes(buf: &[u8]) -> (r: Result<ArionLevel, DecodeError>)
        ensures
            r is Ok <==> level_bytes_valid(buf@),
            match r {
                Ok(lv) => {
                    &&& lv.wf()
                    &&& spec_level_bytes(lv) == buf@
                    &&& forall|k: int|
                        0 <= k < WIDTH ==> (#[trigger] lv.level@[k]).limbs@
                            == spec_limbs_of_bytes(level_chunk(buf@, k))
                    &&& lv.index == spec_u64_from_le_bytes(
                        buf@.subrange(WIDTH as int * 32, WIDTH as int * 32 + 8),
                    )
                },
                Err(e) => e == DecodeError::Truncated <==> buf@.len() != WIDTH * 32 + 8,
            },
    {
        if buf.len() != WIDTH * 32 + 8 {
            return Err(DecodeError::Truncated);
        }
        let mut level: Vec<Fe> = Vec::new();
        let mut k: usize = 0;
        while k < WIDTH
            invariant
                k <= WIDTH,
                buf@.len() == WIDTH * 32 + 8,
                level@.len() == k,
                forall|l: int| 0 <= l < k ==> fe_bytes_valid(#[trigger] level_chunk(buf@, l)),
                forall|l: int|
                    0 <= l < k ==> (#[trigger] level@[l]).wf() && level@[l].limbs@
                        == spec_limbs_of_bytes(level_chunk(buf@, l)) && spec_fe_bytes(level@[l])
                        == level_chunk(buf@, l),
            decreases WIDTH - k,
        {
            let c = slice_subrange(buf, k * 32, k * 32 + 32);
            match Fe::from_bytes(c) {
                Some(f) => {
                    level.push(f);
                },
                None => {
                    proof {
                        assert(!fe_bytes_valid(level_chunk(buf@, k as int)));
                    }
                    return Err(DecodeError::InvalidEncoding);
                },
            }
            k += 1;
        }
        let ib = slice_subrange(buf, WIDTH * 32, WIDTH * 32 + 8);
        let index = u64_from_le_bytes(ib);
        let lv = ArionLevel { level, index };
        proof {
            lemma_fe_seq_bytes_from_chunks(lv.level@, buf@, WIDTH as int);
            vstd::bytes::lemma_auto_spec_u64_to_from_le_bytes();
            assert(spec_level_bytes(lv) =~= buf@);
        }
        Ok(lv)
    }
}

/// One real level of the tree as handed to the opening builder: the
/// 0-based slot the opened path occupies within the level, and the up to
/// `WIDTH - 1` optional children of the level (a leaf's hash at the leaf
/// level, a child subtree's annotation root above it).
#[derive(Clone, Debug)]
pub struct TreeLevel {
    /// The 0-based child slot that the opened path occupies.
    pub index: u64,
    /// The level's children, present or absent.
    pub children: Vec<Option<Fe>>,
}

/// Well-formed input level: the full complement of optional children,
/// an in-range slot, and canonical contributions.
pub open spec fn tree_level_wf(t: TreeLevel) -> bool {
    &&& t.children@.len() == WIDTH - 1
    &&& t.index < WIDTH - 1
    &&& forall|i: int|
        0 <= i < WIDTH - 1 ==> (match #[trigger] t.children@[i] {
            Some(f) => f.wf(),
            None => true,
        })
}

/// The pre-image vector of a synthetic level above the real tree: the
/// occupancy bitmask is forced to 1 (exactly one live child, the promoted
/// subtree), slot 1 holds the digest of the level below, and the rest is
/// zero.
pub open spec fn synth_vec(v: Seq<int>) -> Seq<int> {
    Seq::new(
        WIDTH as nat,
        |i: int|
            if i == 0 {
                1
            } else if i == 1 {
                spec_permute(v)[1]
            } else {
                0
            },
    )
}

/// The pre-image vector of level `k` of the opening: the digested level
/// of the real tree while there is one, and a synthetic level above.
pub open spec fn path_vec(levels: Seq<TreeLevel>, k: int) -> Seq<int>
    recommends
        0 <= k,
        1 <= levels.len(),
    decreases k,
{
    if k >= levels.len() && k >= 1 {
        synth_vec(path_vec(levels, k - 1))
    } else {
        level_preimage(levels[k].children@)
    }
}

/// The 1-based opened slot of level `k` of the opening.
pub open spec fn path_index(levels: Seq<TreeLevel>, k: int) -> int {
    if k < levels.len() {
        levels[k].index + 1
    } else {
        1
    }
}

/// The root of the opening: slot 1 of the permutation of the top level's
/// pre-image with the occupancy bitmask forced to 1.
pub open spec fn spec_branch_root(levels: Seq<TreeLevel>, depth: int) -> int {
    spec_permute(path_vec(levels, depth - 1).update(0, 1))[1]
}

/// Above the real levels of the tree, every synthetic level of the
/// opening carries, at its opened slot 1, exactly the digest of the level
/// below it, and its occupancy bitmask is 1.
pub proof fn lemma_synthetic_chain(levels: Seq<TreeLevel>, k: int)
    requires
        1 <= levels.len() <= k,
    ensures
        path_index(levels, k) == 1,
        path_vec(levels, k)[0] == 1,
        path_vec(levels, k)[1] == spec_permute(path_vec(levels, k - 1))[1],
{
}

/// Whether an opening checks out: every level's digest (slot 1 of the
/// permutation of its pre-image) is embedded in the level above at that
/// level's opened slot, and the top level, digested with its occupancy
/// bitmask forced to 1, yields the cached root.
pub open spec fn branch_verifies(path: Seq<ArionLevel>, root: Fe) -> bool {
    &&& path.len() >= 1
    &&& forall|k: int|
        0 <= k < path.len() - 1 ==> 1 <= (#[trigger] path[k + 1]).index < WIDTH
    &&& forall|k: int|
        0 <= k < path.len() - 1 ==> spec_permute(fe_values((#[trigger] path[k]).level@))[1]
            == fe_values(path[k + 1].level@)[path[k + 1].index as int]
    &&& spec_permute(fe_values(path[path.len() - 1].level@).update(0, 1))[1] == root.value()
}

/// The openings the builder produces check out: if each real level of
/// the tree embeds, at its opened slot, the digest of the level below it
/// (which is exactly what the annotation engine computes there), then
/// the whole path, real and synthetic, chains up to the cached root.
pub proof fn lemma_built_branch_verifies(path: Seq<ArionLevel>, root: Fe, levels: Seq<TreeLevel>)
    requires
        1 <= levels.len() <= path.len(),
        forall|k: int| 0 <= k < levels.len() ==> tree_level_wf(#[trigger] levels[k]),
        forall|k: int|
            0 <= k < path.len() ==> fe_values((#[trigger] path[k]).level@) == path_vec(levels, k)
                && path[k].index == path_index(levels, k),
        root.value() == spec_branch_root(levels, path.len() as int),
        forall|k: int|
            1 <= k < levels.len() ==> match (#[trigger] levels[k]).children@[levels[k].index as int] {
                Some(f) => f.value() == spec_permute(
                    level_preimage(levels[k - 1].children@),
                )[1],
                None => false,
            },
    ensures
        branch_verifies(path, root),
{
    let depth = path.len() as int;
    assert forall|k: int| 0 <= k < depth - 1 implies 1 <= (#[trigger] path[k + 1]).index < WIDTH
        && spec_permute(fe_values(path[k].level@))[1] == fe_values(path[k + 1].level@)[path[k
        + 1].index as int] by {
        if k + 1 < levels.len() {
            let t = levels[k + 1];
            assert(level_preimage(t.children@)[t.index + 1] == spec_permute(
                level_preimage(levels[k].children@),
            )[1]);
        }
    }
}

/// Represents a full path for a Merkle opening: `DEPTH` levels from the
/// leaf's level upward, and the cached root.
#[derive(Clone, Debug, PartialEq)]
pub struct ArionBranch<const DEPTH: usize> {
    /// The levels of the opening, leaf's level first.
    pub path: Vec<ArionLevel>,
    /// The cached root of the opening.
    pub root: Fe,
}

/// Copies a level's entries into a fresh vector.
fn copy_fes(src: &Vec<Fe>) -> (r: Vec<Fe>)
    ensures
        r@ == src@,
{
    let mut r: Vec<Fe> = Vec::new();
    let mut t: usize = 0;
    while t < src.len()
        invariant
            t <= src@.len(),
            r@.len() == t,
            forall|l: int| 0 <= l < t ==> r@[l] == src@[l],
        decreases src@.len() - t,
    {
        r.push(src[t]);
        t += 1;
    }
    proof {
        assert(r@ =~= src@);
    }
    r
}

impl<const DEPTH: usize> ArionBranch<DEPTH> {
    /// Recomputes the digest chain of the opening: each level's digest
    /// must be embedded in the level above at that level's opened slot,
    /// and the top level, digested with the occupancy bitmask forced to
    /// 1, must equal the cached root.
    pub fn verify(&self) -> (r: bool)
        requires
            self.wf(),
            DEPTH >= 1,
        ensures
            r == branch_verifies(self.path@, self.root),
    {
        let mut k: usize = 0;
        while k + 1 < DEPTH
            invariant
                DEPTH >= 1,
                k <= DEPTH - 1,
                self.wf(),
                forall|j: int|
                    0 <= j < k ==> 1 <= (#[trigger] self.path@[j + 1]).index < WIDTH,
                forall|j: int|
                    0 <= j < k ==> spec_permute(fe_values((#[trigger] self.path@[j]).level@))[1]
                        == fe_values(self.path@[j + 1].level@)[self.path@[j + 1].index as int],
            decreases DEPTH - k,
        {
            let idx = self.path[k + 1].index;
            if idx < 1 || idx >= WIDTH as u64 {
                return false;
            }
            let mut perm = copy_fes(&self.path[k].level);
            ScalarStrategy::new().perm(&mut perm);
            let d = perm[1];
            let e = self.path[k + 1].level[idx as usize];
            if !(d == e) {
                proof {
                    if d.value() == e.value() {
                        crate::field::lemma_fe_value_injective(d, e);
                    }
                }
                return false;
            }
            k += 1;
        }
        let mut top = copy_fes(&self.path[DEPTH - 1].level);
        top[0] = Fe::one();
        proof {
            assert(fe_values(top@) =~= fe_values(self.path@[DEPTH - 1].level@).update(0, 1));
        }
        ScalarStrategy::new().perm(&mut top);
        let d = top[1];
        let ok = d == self.root;
        proof {
            if !ok && d.value() == self.root.value() {
                crate::field::lemma_fe_value_injective(d, self.root);
            }
        }
        ok
    }

    /// Well-formed: exactly `DEPTH` levels, each well-formed, and a
    /// canonical root.
    pub open spec fn wf(self) -> bool {
        &&& self.path@.len() == DEPTH
        &&& forall|k: int| 0 <= k < DEPTH ==> (#[trigger] self.path@[k]).wf()
        &&& self.root.wf()
    }

    /// The root representation of an empty tree: the field's zero.
    pub fn null_root() -> (r: Fe)
        ensures
            r.wf(),
            r.value() == 0,
    {
        Fe::zero()
    }

    /// The root for this opening's path.
    pub fn root(&self) -> (r: &Fe)
        ensures
            *r == self.root,
    {
        &self.root
    }

    /// Builds the opening from the real levels of the tree, leaf's level
    /// first.  Each real level is mirrored into the path; if the tree is
    /// shorter than `DEPTH`, the remaining levels are synthesized with
    /// the occupancy bitmask forced to 1 and the prior level's digest at
    /// slot 1.  The root is slot 1 of the permutation of the top level
    /// with its bitmask forced to 1.
    pub fn from_levels(levels: &Vec<TreeLevel>) -> (b: ArionBranch<DEPTH>)
        requires
            1 <= levels@.len() <= DEPTH,
            forall|k: int| 0 <= k < levels@.len() ==> tree_level_wf(#[trigger] levels@[k]),
        ensures
            b.wf(),
            forall|k: int|
                0 <= k < DEPTH ==> fe_values((#[trigger] b.path@[k]).level@) == path_vec(
                    levels@,
                    k,
                ) && b.path@[k].index == path_index(levels@, k),
            b.root.value() == spec_branch_root(levels@, DEPTH as int),
    {
        let n = levels.len();
        let mut path: Vec<ArionLevel> = Vec::new();

        // Mirror the real levels of the tree into the path.
        let mut k: usize = 0;
        while k < n
            invariant
                k <= n,
                n == levels@.len(),
                1 <= n <= DEPTH,
                forall|l: int| 0 <= l < n ==> tree_level_wf(#[trigger] levels@[l]),
                path@.len() == k,
                forall|l: int| 0 <= l < k ==> (#[trigger] path@[l]).wf(),
                forall|l: int|
                    0 <= l < k ==> fe_values((#[trigger] path@[l]).level@) == path_vec(levels@, l)
                        && path@[l].index == path_index(levels@, l),
            decreases n - k,
        {
            let v = level_preimage_vec(&levels[k].children);
            let lv = ArionLevel { level: v, index: levels[k].index + 1 };
            proof {
                assert(all_wf(lv.level@));
            }
            path.push(lv);
            k += 1;
        }

        // Synthesize the levels above the real tree.
        while k < DEPTH
            invariant
                n <= k <= DEPTH,
                n == levels@.len(),
                1 <= n <= DEPTH,
                path@.len() == k,
                forall|l: int| 0 <= l < k ==> (#[trigger] path@[l]).wf(),
                forall|l: int|
                    0 <= l < k ==> fe_values((#[trigger] path@[l]).level@) == path_vec(levels@, l)
                        && path@[l].index == path_index(levels@, l),
            decreases DEPTH - k,
        {
            let mut perm = copy_fes(&path[k - 1].level);
            ScalarStrategy::new().perm(&mut perm);
            let mut lv: Vec<Fe> = Vec::new();
            lv.push(Fe::one());
            lv.push(perm[1]);
            let mut z: usize = 2;
            while z < WIDTH
                invariant
                    2 <= z <= WIDTH,
                    lv@.len() == z,
                    lv@[0].wf() && lv@[0].value() == 1,
                    lv@[1].wf() && lv@[1].value() == spec_permute(path_vec(levels@, k as int - 1))[
                        1],
                    forall|l: int| 2 <= l < z ==> (#[trigger] lv@[l]).wf() && lv@[l].value() == 0,
                decreases WIDTH - z,
            {
                lv.push(Fe::zero());
                z += 1;
            }
            proof {
                assert(fe_values(lv@) =~= synth_vec(path_vec(levels@, k as int - 1)));
            }
            path.push(ArionLevel { level: lv, index: 1 });
            k += 1;
        }

        // Compute the root: the top level with its bitmask forced to 1.
        let mut top = copy_fes(&path[DEPTH - 1].level);
        top[0] = Fe::one();
        proof {
            assert(fe_values(top@) =~= path_vec(levels@, DEPTH as int - 1).update(0, 1));
        }
        ScalarStrategy::new().perm(&mut top);
        let root = top[1];
        ArionBranch { path, root }
    }
}

/// The concatenation of the serializations of the first `k` levels of a
/// sequence.
pub open spec fn level_seq_bytes(s: Seq<ArionLevel>, k: int) -> Seq<u8>
    decreases k,
{
    if k <= 0 {
        Seq::empty()
    } else {
        level_seq_bytes(s, k - 1) + spec_level_bytes(s[k - 1])
    }
}

/// The serialized form of a branch of `depth` levels: the level
/// serializations in order, followed by the root's field-element
/// encoding.
pub open spec fn spec_branch_bytes(path: Seq<ArionLevel>, root: Fe, depth: int) -> Seq<u8> {
    level_seq_bytes(path, depth) + spec_fe_bytes(root)
}

/// The `j`-th serialized-level chunk of a serialized branch.
pub open spec fn branch_chunk(s: Seq<u8>, j: int) -> Seq<u8> {
    s.subrange(168 * j, 168 * j + 168)
}

/// Whether a byte string is a valid serialized branch of `depth` levels:
/// the exact size, every level chunk valid, and a canonical root
/// encoding at the end.
pub open spec fn branch_bytes_valid(s: Seq<u8>, depth: int) -> bool {
    &&& s.len() == depth * 168 + 32
    &&& forall|j: int| 0 <= j < depth ==> level_bytes_valid(#[trigger] branch_chunk(s, j))
    &&& fe_bytes_valid(
        s.subrange(depth * 168, depth * 168 + 32),
    )
}

proof fn lemma_spec_level_bytes_len(lv: ArionLevel)
    requires
        lv.level@.len() == WIDTH,
    ensures
        spec_level_bytes(lv).len() == WIDTH * 32 + 8,
{
    lemma_fe_seq_bytes_len(lv.level@, WIDTH as int);
    vstd::bytes::lemma_auto_spec_u64_to_from_le_bytes();
}

proof fn lemma_level_seq_bytes_len(s: Seq<ArionLevel>, k: int)
    requires
        k >= 0,
        forall|j: int| 0 <= j < k ==> (#[trigger] s[j]).level@.len() == WIDTH,
    ensures
        level_seq_bytes(s, k).len() == 168 * k,
    decreases k,
{
    if k > 0 {
        lemma_level_seq_bytes_len(s, k - 1);
        lemma_spec_level_bytes_len(s[k - 1]);
    }
}

proof fn lemma_level_seq_bytes_chunk(s: Seq<ArionLevel>, k: int, j: int)
    requires
        0 <= j < k,
        forall|l: int| 0 <= l < k ==> (#[trigger] s[l]).level@.len() == WIDTH,
    ensures
        level_seq_bytes(s, k).subrange(
            168 * j,
            168 * j + 168,
        ) == spec_level_bytes(s[j]),
    decreases k,
{
    lemma_level_seq_bytes_len(s, k - 1);
    lemma_spec_level_bytes_len(s[k - 1]);
    if j == k - 1 {
        assert(level_seq_bytes(s, k).subrange(
            168 * j,
            168 * j + 168,
        ) =~= spec_level_bytes(s[j]));
    } else {
        lemma_level_seq_bytes_chunk(s, k - 1, j);
        assert(level_seq_bytes(s, k).subrange(
            168 * j,
            168 * j + 168,
        ) =~= level_seq_bytes(s, k - 1).subrange(
            168 * j,
            168 * j + 168,
        ));
    }
}

proof fn lemma_level_seq_bytes_from_chunks(s: Seq<ArionLevel>, b: Seq<u8>, k: int)
    requires
        0 <= k,
        b.len() >= 168 * k,
        forall|j: int| 0 <= j < k ==> (#[trigger] s[j]).level@.len() == WIDTH,
        forall|j: int| 0 <= j < k ==> spec_level_bytes(s[j]) == #[trigger] branch_chunk(b, j),
    ensures
        level_seq_bytes(s, k) == b.subrange(0, 168 * k),
    decreases k,
{
    if k == 0 {
        assert(level_seq_bytes(s, 0) =~= b.subrange(0, 0));
    } else {
        lemma_level_seq_bytes_from_chunks(s, b, k - 1);
        assert(spec_level_bytes(s[k - 1]) == branch_chunk(b, k - 1));
        lemma_level_seq_bytes_len(s, k - 1);
        lemma_spec_level_bytes_len(s[k - 1]);
        assert(level_seq_bytes(s, k) =~= b.subrange(0, 168 * k));
    }
}

/// The branch layer of the encode-decode round trip: a well-formed
/// branch's serialization is valid, every level chunk of it is exactly
/// that level's serialization, and the trailing chunk reads back as the
/// root's limbs.
pub proof fn lemma_branch_bytes_round_trip(path: Seq<ArionLevel>, root: Fe, depth: int)
    requires
        depth >= 0,
        path.len() == depth,
        forall|j: int| 0 <= j < depth ==> (#[trigger] path[j]).wf(),
        root.wf(),
    ensures
        branch_bytes_valid(spec_branch_bytes(path, root, depth), depth),
        forall|j: int|
            0 <= j < depth ==> #[trigger] branch_chunk(spec_branch_bytes(path, root, depth), j)
                == spec_level_bytes(path[j]),
        spec_limbs_of_bytes(
            spec_branch_bytes(path, root, depth).subrange(
                depth * 168,
                depth * 168 + 32,
            ),
        ) == root.limbs@,
{
    let s = spec_branch_bytes(path, root, depth);
    lemma_level_seq_bytes_len(path, depth);
    vstd::bytes::lemma_auto_spec_u64_to_from_le_bytes();
    assert forall|j: int| 0 <= j < depth implies #[trigger] branch_chunk(s, j)
        == spec_level_bytes(path[j]) && level_bytes_valid(branch_chunk(s, j)) by {
        lemma_level_seq_bytes_chunk(path, depth, j);
        assert(branch_chunk(s, j) =~= level_seq_bytes(path, depth).subrange(
            168 * j,
            168 * j + 168,
        ));
        lemma_level_bytes_round_trip(path[j]);
    }
    assert(s.subrange(depth * 168, depth * 168 + 32)
        =~= spec_fe_bytes(root));
    crate::field::lemma_fe_bytes_round_trip(root);
}

impl<const DEPTH: usize> ArionBranch<DEPTH> {
    /// Serializes the branch: `DEPTH` level serializations followed by
    /// the root's field-element encoding.
    pub fn to_bytes(&self) -> (r: Vec<u8>)
        requires
            self.wf(),
        ensures
            r@ == spec_branch_bytes(self.path@, self.root, DEPTH as int),
            r@.len() == DEPTH * 168 + 32,
    {
        let mut out: Vec<u8> = Vec::new();
        let mut k: usize = 0;
        proof {
            lemma_level_seq_bytes_len(self.path@, 0);
        }
        while k < DEPTH
            invariant
                k <= DEPTH,
                self.wf(),
                out@ == level_seq_bytes(self.path@, k as int),
                out@.len() == 168 * k,
            decreases DEPTH - k,
        {
            let mut b = self.path[k].to_bytes();
            out.append(&mut b);
            k += 1;
        }
        let mut rb = self.root.to_bytes();
        out.append(&mut rb);
        out
    }

    /// Decodes a serialized branch; fails on a buffer of the wrong size
    /// or an out-of-range field-element encoding.
    pub fn from_bytes(buf: &[u8]) -> (r: Result<ArionBranch<DEPTH>, DecodeError>)
        requires
            DEPTH * 168 + 32 <= usize::MAX,
        ensures
            r is Ok <==> branch_bytes_valid(buf@, DEPTH as int),
            match r {
                Ok(b) => {
                    &&& b.wf()
                    &&& spec_branch_bytes(b.path@, b.root, DEPTH as int) == buf@
                    &&& forall|j: int|
                        0 <= j < DEPTH ==> spec_level_bytes(#[trigger] b.path@[j])
                            == branch_chunk(buf@, j)
                    &&& b.root.limbs@ == spec_limbs_of_bytes(
                        buf@.subrange(
                            DEPTH as int * 168,
                            DEPTH as int * 168 + 32,
                        ),
                    )
                },
                Err(e) => e == DecodeError::Truncated <==> buf@.len() != DEPTH * 168
                    + 32,
            },
    {
        if buf.len() != DEPTH * 168 + 32 {
            return Err(DecodeError::Truncated);
        }
        let mut path: Vec<ArionLevel> = Vec::new();
        let mut k: usize = 0;
        while k < DEPTH
            invariant
                k <= DEPTH,
                DEPTH * 168 + 32 <= usize::MAX,
                buf@.len() == DEPTH * 168 + 32,
                path@.len() == k,
                forall|l: int| 0 <= l < k ==> level_bytes_valid(#[trigger] branch_chunk(buf@, l)),
                forall|l: int|
                    0 <= l < k ==> (#[trigger] path@[l]).wf() && spec_level_bytes(path@[l])
                        == branch_chunk(buf@, l),
            decreases DEPTH - k,
        {
            let c = slice_subrange(buf, k * 168, k * 168 + 168);
            match ArionLevel::from_bytes(c) {
                Ok(lv) => {
                    path.push(lv);
                },
                Err(_) => {
                    proof {
                        assert(!level_bytes_valid(branch_chunk(buf@, k as int)));
                    }
                    return Err(DecodeError::InvalidEncoding);
                },
            }
            k += 1;
        }
        let rc = slice_subrange(buf, DEPTH * 168, DEPTH * 168 + 32);
        let root = match Fe::from_bytes(rc) {
            Some(f) => f,
            None => {
                return Err(DecodeError::InvalidEncoding);
            },
        };
        let b = ArionBranch { path, root };
        proof {
            lemma_level_seq_bytes_from_chunks(b.path@, buf@, DEPTH as int);
            assert(spec_branch_bytes(b.path@, b.root, DEPTH as int) =~= buf@);
        }
        Ok(b)
    }
}

impl<const DEPTH: usize> Default for ArionBranch<DEPTH> {
    fn default() -> (r: ArionBranch<DEPTH>)
        ensures
            r.wf(),
            r.root.value() == 0,
            forall|k: int| 0 <= k < DEPTH ==> (#[trigger] r.path@[k]).index == 0,
    {
        let mut path: Vec<ArionLevel> = Vec::new();
        let mut k: usize = 0;
        while k < DEPTH
            invariant
                k <= DEPTH,
                path@.len() == k,
                forall|l: int|
                    0 <= l < k ==> (#[trigger] path@[l]).wf() && path@[l].index == 0,
            decreases DEPTH - k,
        {
            path.push(ArionLevel::default());
            k += 1;
        }
        ArionBranch { path, root: Fe::zero() }
    }
}

} // verus!
