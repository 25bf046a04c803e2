//! The permutation algorithm, stated over the mathematical field (integers
//! modulo the prime): the quintic S-box, the accumulator-threaded nonlinear
//! layer, the circulant diffusion, the affine layer, and their composition
//! into the full permutation.  `ScalarStrategy` implements the algorithm
//! over plain field elements and is proved to compute exactly these
//! functions.

use vstd::prelude::*;
use vstd::arithmetic::power::pow;

pub mod scalar;

pub use scalar::ScalarStrategy;

use crate::constants::{aff_value, g0_value, g1_value, h_value};
use crate::field::{Fe, fe_modulus, inv_sbox_value};
use crate::params::matrix_value;
use crate::{ROUNDS, WIDTH};

verus! {

/// Addition in the field.
pub open spec fn fadd(a: int, b: int) -> int {
    (a + b) % fe_modulus()
}

/// Multiplication in the field.
pub open spec fn fmul(a: int, b: int) -> int {
    (a * b) % fe_modulus()
}

/// The quintic S-box: `x` to the fifth power in the field.
pub open spec fn quintic_value(x: int) -> int {
    pow(x, 5) % fe_modulus()
}

/// The quadratic `g` of the nonlinear layer, on accumulator `s` with the
/// constant pair `(c0, c1)`.
pub open spec fn gtds_g(s: int, c0: int, c1: int) -> int {
    (s * s + c0 * s + c1) % fe_modulus()
}

/// The quadratic `h` of the nonlinear layer, on accumulator `s` with the
/// constant `c`.
pub open spec fn gtds_h(s: int, c: int) -> int {
    (s * s + c * s) % fe_modulus()
}

/// The descending pass of the nonlinear layer: processes positions
/// `i, i - 1, ..., 0` of `out`, threading the accumulator `s`.
pub open spec fn spec_gtds_rec(
    inp: Seq<int>,
    g0: Seq<int>,
    g1: Seq<int>,
    h: Seq<int>,
    out: Seq<int>,
    s: int,
    i: int,
) -> Seq<int>
    decreases i + 1,
{
    if i < 0 {
        out
    } else {
        let gi = gtds_g(s, g0[i], g1[i]);
        let hi = gtds_h(s, h[i]);
        let oi = fadd(fmul(quintic_value(out[i]), gi), hi);
        let s2 = fadd(fadd(s, oi), inp[i]);
        spec_gtds_rec(inp, g0, g1, h, out.update(i, oi), s2, i - 1)
    }
}

/// The nonlinear layer ("GTDS"): the last position goes through the
/// inverse high-degree S-box; every other position, from right to left,
/// through the quintic S-box followed by the quadratic gate keyed by the
/// round constants, with a single accumulator threaded across positions.
pub open spec fn spec_gtds(inp: Seq<int>, g0: Seq<int>, g1: Seq<int>, h: Seq<int>) -> Seq<int> {
    let last = inv_sbox_value(inp[WIDTH - 1]);
    let s0 = fadd(inp[WIDTH - 1], last);
    spec_gtds_rec(inp, g0, g1, h, inp.update(WIDTH - 1, last), s0, WIDTH - 2)
}

/// The dot product of row `i` of the diffusion matrix with the first `k`
/// entries of `v`, accumulated left to right in the field.
pub open spec fn dot_row(i: int, v: Seq<int>, k: int) -> int
    decreases k,
{
    if k <= 0 {
        0
    } else {
        fadd(dot_row(i, v, k - 1), fmul(matrix_value(i, k - 1, WIDTH as int), v[k - 1]))
    }
}

/// The diffusion layer: the matrix-vector product of the circulant
/// diffusion matrix with the state.
pub open spec fn spec_mul_matrix(v: Seq<int>) -> Seq<int> {
    Seq::new(WIDTH as nat, |i: int| dot_row(i, v, WIDTH as int))
}

/// The affine layer: diffusion followed by the element-wise addition of a
/// round-constant vector.
pub open spec fn spec_affine_layer(v: Seq<int>, rc: Seq<int>) -> Seq<int> {
    Seq::new(WIDTH as nat, |i: int| fadd(spec_mul_matrix(v)[i], rc[i]))
}

/// Row `r` of the linear coefficients of the `g` constant pairs.
pub open spec fn g0_row(r: int) -> Seq<int> {
    Seq::new((WIDTH - 1) as nat, |j: int| g0_value(r, j))
}

/// Row `r` of the constant terms of the `g` constant pairs.
pub open spec fn g1_row(r: int) -> Seq<int> {
    Seq::new((WIDTH - 1) as nat, |j: int| g1_value(r, j))
}

/// Row `r` of the `h` constants.
pub open spec fn h_row(r: int) -> Seq<int> {
    Seq::new((WIDTH - 1) as nat, |j: int| h_value(r, j))
}

/// Row `r` of the affine round constants.
pub open spec fn aff_row(r: int) -> Seq<int> {
    Seq::new(WIDTH as nat, |j: int| aff_value(r, j))
}

/// The all-zero round-constant vector.
pub open spec fn zero_row() -> Seq<int> {
    Seq::new(WIDTH as nat, |j: int| 0)
}

/// One full round: the nonlinear layer with round `r`'s constants, then
/// the affine layer with round `r`'s constants.
pub open spec fn spec_round(v: Seq<int>, r: int) -> Seq<int> {
    spec_affine_layer(spec_gtds(v, g0_row(r), g1_row(r), h_row(r)), aff_row(r))
}

/// Rounds `0, 1, ..., r - 1` applied in order.
pub open spec fn spec_rounds(v: Seq<int>, r: int) -> Seq<int>
    decreases r,
{
    if r <= 0 {
        v
    } else {
        spec_round(spec_rounds(v, r - 1), r - 1)
    }
}

/// The full permutation: the diffusion layer, the affine layer with the
/// zero constant vector, then all rounds.
pub open spec fn spec_permute(v: Seq<int>) -> Seq<int> {
    spec_rounds(spec_affine_layer(spec_mul_matrix(v), zero_row()), ROUNDS as int)
}

/// The values of a sequence of field elements.
pub open spec fn fe_values(s: Seq<Fe>) -> Seq<int> {
    Seq::new(s.len(), |i: int| s[i].value())
}

/// Whether every element of the sequence is in canonical form.
pub open spec fn all_wf(s: Seq<Fe>) -> bool {
    forall|i: int| 0 <= i < s.len() ==> (#[trigger] s[i]).wf()
}

/// The values of the first components of a sequence of constant pairs.
pub open spec fn pair0_values(s: Seq<[Fe; 2]>) -> Seq<int> {
    Seq::new(s.len(), |i: int| s[i]@[0].value())
}

/// The values of the second components of a sequence of constant pairs.
pub open spec fn pair1_values(s: Seq<[Fe; 2]>) -> Seq<int> {
    Seq::new(s.len(), |i: int| s[i]@[1].value())
}

/// The permutation is deterministic: it is a function of the state value
/// alone, so equal input states yield equal output states.
pub proof fn lemma_permute_deterministic(a: Seq<int>, b: Seq<int>)
    requires
        a == b,
    ensures
        spec_permute(a) == spec_permute(b),
{
}

} // verus!
