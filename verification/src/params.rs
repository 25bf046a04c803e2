//! The parameter builder: slices the fixed domain-parameter table for an
//! active `(width, rounds)` pair and synthesizes the circulant diffusion
//! matrix whose first row is `[0, 1, ..., width - 1]`.

use vstd::prelude::*;

use crate::constants::{aff_value, constant_g0, constant_g1, constant_h, g0_value, g1_value,
    h_value, affine_constant};
use crate::field::{Fe, fe_modulus};
use crate::{MAX_ROUNDS, MAX_WIDTH};

verus! {

/// Entry `(i, j)` of the `n`-by-`n` circulant matrix whose first row is
/// `[0, 1, ..., n - 1]` and whose every further row is the previous row
/// rotated right by one position.
pub open spec fn matrix_value(i: int, j: int, n: int) -> int {
    if j >= i {
        j - i
    } else {
        j - i + n
    }
}

/// The parameters derived for an active `(width, rounds)` pair: the sliced
/// constant tables and the circulant diffusion matrix.
#[derive(Clone, Debug)]
pub struct ArionParams {
    pub n: usize,
    pub rounds: usize,
    pub constants_g: Vec<Vec<[Fe; 2]>>,
    pub constants_h: Vec<Vec<Fe>>,
    pub constants_aff: Vec<Vec<Fe>>,
    pub mat: Vec<Vec<Fe>>,
}

impl ArionParams {
    /// Whether the tables have exactly the sliced shape and the golden
    /// values of the domain-parameter table, and the matrix is the
    /// circulant one.
    pub open spec fn wf(self) -> bool {
        &&& 1 <= self.n <= MAX_WIDTH
        &&& self.rounds <= MAX_ROUNDS
        &&& self.constants_g@.len() == self.rounds
        &&& forall|i: int|
            0 <= i < self.rounds ==> (#[trigger] self.constants_g@[i])@.len() == self.n - 1
        &&& forall|i: int, j: int|
            0 <= i < self.rounds && 0 <= j < self.n - 1 ==> {
                &&& (#[trigger] self.constants_g@[i]@[j])@[0].wf()
                &&& self.constants_g@[i]@[j]@[0].value() == g0_value(i, j)
                &&& self.constants_g@[i]@[j]@[1].wf()
                &&& self.constants_g@[i]@[j]@[1].value() == g1_value(i, j)
            }
        &&& self.constants_h@.len() == self.rounds
        &&& forall|i: int|
            0 <= i < self.rounds ==> (#[trigger] self.constants_h@[i])@.len() == self.n - 1
        &&& forall|i: int, j: int|
            0 <= i < self.rounds && 0 <= j < self.n - 1 ==> {
                &&& (#[trigger] self.constants_h@[i]@[j]).wf()
                &&& self.constants_h@[i]@[j].value() == h_value(i, j)
            }
        &&& self.constants_aff@.len() == self.rounds
        &&& forall|i: int|
            0 <= i < self.rounds ==> (#[trigger] self.constants_aff@[i])@.len() == self.n
        &&& forall|i: int, j: int|
            0 <= i < self.rounds && 0 <= j < self.n ==> {
                &&& (#[trigger] self.constants_aff@[i]@[j]).wf()
                &&& self.constants_aff@[i]@[j].value() == aff_value(i, j)
            }
        &&& self.mat@.len() == self.n
        &&& forall|i: int| 0 <= i < self.n ==> (#[trigger] self.mat@[i])@.len() == self.n
        &&& forall|i: int, j: int|
            0 <= i < self.n && 0 <= j < self.n ==> {
                &&& (#[trigger] self.mat@[i]@[j]).wf()
                &&& self.mat@[i]@[j].value() == matrix_value(i, j, self.n as int)
            }
    }

    /// Derives the parameters for an active `(n, rounds)` pair: every
    /// constant equals the corresponding entry of the domain-parameter
    /// table, and the matrix is the circulant of `[0, 1, ..., n - 1]`.
    pub fn new(n: usize, rounds: usize) -> (r: ArionParams)
        requires
            1 <= n <= MAX_WIDTH,
            rounds <= MAX_ROUNDS,
        ensures
            r.wf(),
            r.n == n,
            r.rounds == rounds,
    {
        let constants_g = Self::collect_constants_g(n, rounds);
        let constants_h = Self::collect_constants_h(n, rounds);
        let constants_aff = Self::collect_constants_aff(n, rounds);
        let mat = Self::instantiate_matrix(n);
        ArionParams { n, rounds, constants_g, constants_h, constants_aff, mat }
    }

    fn collect_constants_g(n: usize, rounds: usize) -> (r: Vec<Vec<[Fe; 2]>>)
        requires
            1 <= n <= MAX_WIDTH,
            rounds <= MAX_ROUNDS,
        ensures
            r@.len() == rounds,
            forall|i: int| 0 <= i < rounds ==> (#[trigger] r@[i])@.len() == n - 1,
            forall|i: int, j: int|
                0 <= i < rounds && 0 <= j < n - 1 ==> {
                    &&& (#[trigger] r@[i]@[j])@[0].wf()
                    &&& r@[i]@[j]@[0].value() == g0_value(i, j)
                    &&& r@[i]@[j]@[1].wf()
                    &&& r@[i]@[j]@[1].value() == g1_value(i, j)
                },
    {
        let mut constants_g: Vec<Vec<[Fe; 2]>> = Vec::new();
        let mut i: usize = 0;
        while i < rounds
            invariant
                1 <= n <= MAX_WIDTH,
                rounds <= MAX_ROUNDS,
                i <= rounds,
                constants_g@.len() == i,
                forall|k: int| 0 <= k < i ==> (#[trigger] constants_g@[k])@.len() == n - 1,
                forall|k: int, j: int|
                    0 <= k < i && 0 <= j < n - 1 ==> {
                        &&& (#[trigger] constants_g@[k]@[j])@[0].wf()
                        &&& constants_g@[k]@[j]@[0].value() == g0_value(k, j)
                        &&& constants_g@[k]@[j]@[1].wf()
                        &&& constants_g@[k]@[j]@[1].value() == g1_value(k, j)
                    },
            decreases rounds - i,
        {
            let mut current_round: Vec<[Fe; 2]> = Vec::new();
            let mut j: usize = 0;
            while j < n - 1
                invariant
                    1 <= n <= MAX_WIDTH,
                    i < rounds,
                    rounds <= MAX_ROUNDS,
                    j <= n - 1,
                    current_round@.len() == j,
                    forall|l: int|
                        0 <= l < j ==> {
                            &&& (#[trigger] current_round@[l])@[0].wf()
                            &&& current_round@[l]@[0].value() == g0_value(i as int, l)
                            &&& current_round@[l]@[1].wf()
                            &&& current_round@[l]@[1].value() == g1_value(i as int, l)
                        },
                decreases n - 1 - j,
            {
                let c0 = constant_g0(i, j);
                let c1 = constant_g1(i, j);
                let pair = [c0, c1];
                proof {
                    assert(pair@ =~= seq![c0, c1]);
                }
                current_round.push(pair);
                j += 1;
            }
            constants_g.push(current_round);
            i += 1;
        }
        constants_g
    }

    fn collect_constants_h(n: usize, rounds: usize) -> (r: Vec<Vec<Fe>>)
        requires
            1 <= n <= MAX_WIDTH,
            rounds <= MAX_ROUNDS,
        ensures
            r@.len() == rounds,
            forall|i: int| 0 <= i < rounds ==> (#[trigger] r@[i])@.len() == n - 1,
            forall|i: int, j: int|
                0 <= i < rounds && 0 <= j < n - 1 ==> {
                    &&& (#[trigger] r@[i]@[j]).wf()
                    &&& r@[i]@[j].value() == h_value(i, j)
                },
    {
        let mut constants_h: Vec<Vec<Fe>> = Vec::new();
        let mut i: usize = 0;
        while i < rounds
            invariant
                1 <= n <= MAX_WIDTH,
                rounds <= MAX_ROUNDS,
                i <= rounds,
                constants_h@.len() == i,
                forall|k: int| 0 <= k < i ==> (#[trigger] constants_h@[k])@.len() == n - 1,
                forall|k: int, j: int|
                    0 <= k < i && 0 <= j < n - 1 ==> {
                        &&& (#[trigger] constants_h@[k]@[j]).wf()
                        &&& constants_h@[k]@[j].value() == h_value(k, j)
                    },
            decreases rounds - i,
        {
            let mut current_round: Vec<Fe> = Vec::new();
            let mut j: usize = 0;
            while j < n - 1
                invariant
                    1 <= n <= MAX_WIDTH,
                    i < rounds,
                    rounds <= MAX_ROUNDS,
                    j <= n - 1,
                    current_round@.len() == j,
                    forall|l: int|
                        0 <= l < j ==> {
                            &&& (#[trigger] current_round@[l]).wf()
                            &&& current_round@[l].value() == h_value(i as int, l)
                        },
                decreases n - 1 - j,
            {
                current_round.push(constant_h(i, j));
                j += 1;
            }
            constants_h.push(current_round);
            i += 1;
        }
        constants_h
    }

    fn collect_constants_aff(n: usize, rounds: usize) -> (r: Vec<Vec<Fe>>)
        requires
            1 <= n <= MAX_WIDTH,
            rounds <= MAX_ROUNDS,
        ensures
            r@.len() == rounds,
            forall|i: int| 0 <= i < rounds ==> (#[trigger] r@[i])@.len() == n,
            forall|i: int, j: int|
                0 <= i < rounds && 0 <= j < n ==> {
                    &&& (#[trigger] r@[i]@[j]).wf()
                    &&& r@[i]@[j].value() == aff_value(i, j)
                },
    {
        let mut constants_aff: Vec<Vec<Fe>> = Vec::new();
        let mut i: usize = 0;
        while i < rounds
            invariant
                1 <= n <= MAX_WIDTH,
                rounds <= MAX_ROUNDS,
                i <= rounds,
                constants_aff@.len() == i,
                forall|k: int| 0 <= k < i ==> (#[trigger] constants_aff@[k])@.len() == n,
                forall|k: int, j: int|
                    0 <= k < i && 0 <= j < n ==> {
                        &&& (#[trigger] constants_aff@[k]@[j]).wf()
                        &&& constants_aff@[k]@[j].value() == aff_value(k, j)
                    },
            decreases rounds - i,
        {
            let mut current_round: Vec<Fe> = Vec::new();
            let mut j: usize = 0;
            while j < n
                invariant
                    1 <= n <= MAX_WIDTH,
                    i < rounds,
                    rounds <= MAX_ROUNDS,
                    j <= n,
                    current_round@.len() == j,
                    forall|l: int|
                        0 <= l < j ==> {
                            &&& (#[trigger] current_round@[l]).wf()
                            &&& current_round@[l].value() == aff_value(i as int, l)
                        },
                decreases n - j,
            {
                current_round.push(affine_constant(i, j));
                j += 1;
            }
            constants_aff.push(current_round);
            i += 1;
        }
        constants_aff
    }

    /// Builds the circulant matrix of a row: row `0` is the given row, and
    /// every further row is the previous one rotated right by one position.
    fn circ_mat(row: &Vec<Fe>) -> (mat: Vec<Vec<Fe>>)
        requires
            1 <= row@.len() <= MAX_WIDTH,
            forall|j: int| 0 <= j < row@.len() ==> (#[trigger] row@[j]).wf(),
        ensures
            mat@.len() == row@.len(),
            forall|i: int| 0 <= i < row@.len() ==> (#[trigger] mat@[i])@.len() == row@.len(),
            forall|i: int, j: int|
                0 <= i < row@.len() && 0 <= j < row@.len() ==> {
                    &&& (#[trigger] mat@[i]@[j]).wf()
                    &&& mat@[i]@[j] == row@[
                        if j >= i {
                            j - i
                        } else {
                            j - i + row@.len()
                        }]
                },
    {
        let n = row.len();
        let mut mat: Vec<Vec<Fe>> = Vec::new();
        let mut rot: Vec<Fe> = Vec::new();
        let mut j: usize = 0;
        while j < n
            invariant
                n == row@.len(),
                j <= n,
                rot@.len() == j,
                forall|l: int| 0 <= l < j ==> rot@[l] == row@[l],
            decreases n - j,
        {
            rot.push(row[j]);
            j += 1;
        }
        proof {
            assert(rot@ =~= row@);
        }
        let mut i: usize = 0;
        while i < n
            invariant
                1 <= n <= MAX_WIDTH,
                n == row@.len(),
                forall|l: int| 0 <= l < n ==> (#[trigger] row@[l]).wf(),
                i <= n,
                rot@.len() == n,
                forall|l: int|
                    0 <= l < n ==> rot@[l] == row@[
                        if l >= i {
                            l - i
                        } else {
                            l - i + n
                        }],
                mat@.len() == i,
                forall|k: int| 0 <= k < i ==> (#[trigger] mat@[k])@.len() == n,
                forall|k: int, l: int|
                    0 <= k < i && 0 <= l < n ==> (#[trigger] mat@[k]@[l]) == row@[
                        if l >= k {
                            l - k
                        } else {
                            l - k + n
                        }],
            decreases n - i,
        {
            let mut next_row: Vec<Fe> = Vec::new();
            let mut l: usize = 0;
            while l < n
                invariant
                    n == row@.len(),
                    rot@.len() == n,
                    l <= n,
                    next_row@.len() == l,
                    forall|m: int| 0 <= m < l ==> next_row@[m] == rot@[m],
                decreases n - l,
            {
                next_row.push(rot[l]);
                l += 1;
            }
            proof {
                assert(next_row@ =~= rot@);
            }
            mat.push(next_row);
            // Rotate right by one: the last element moves to the front.
            let last = rot[n - 1];
            let mut rotated: Vec<Fe> = Vec::new();
            rotated.push(last);
            let mut m: usize = 0;
            while m < n - 1
                invariant
                    n == row@.len(),
                    rot@.len() == n,
                    m <= n - 1,
                    rotated@.len() == m + 1,
                    rotated@[0] == rot@[n - 1],
                    forall|q: int| 1 <= q < m + 1 ==> rotated@[q] == rot@[q - 1],
                decreases n - 1 - m,
            {
                rotated.push(rot[m]);
                m += 1;
            }
            rot = rotated;
            i += 1;
        }
        mat
    }

    /// Builds the diffusion matrix for width `n`: the circulant matrix of
    /// the row `[0, 1, ..., n - 1]` as field elements.
    fn instantiate_matrix(n: usize) -> (mat: Vec<Vec<Fe>>)
        requires
            1 <= n <= MAX_WIDTH,
        ensures
            mat@.len() == n,
            forall|i: int| 0 <= i < n ==> (#[trigger] mat@[i])@.len() == n,
            forall|i: int, j: int|
                0 <= i < n && 0 <= j < n ==> {
                    &&& (#[trigger] mat@[i]@[j]).wf()
                    &&& mat@[i]@[j].value() == matrix_value(i, j, n as int)
                },
    {
        let mut row: Vec<Fe> = Vec::new();
        let mut i: usize = 0;
        while i < n
            invariant
                n <= MAX_WIDTH,
                i <= n,
                row@.len() == i,
                forall|l: int|
                    0 <= l < i ==> (#[trigger] row@[l]).wf() && row@[l].value() == l,
            decreases n - i,
        {
            row.push(Fe::from_u64(i as u64));
            i += 1;
        }
        Self::circ_mat(&row)
    }
}

} // verus!
