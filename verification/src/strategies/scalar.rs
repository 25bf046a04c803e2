//! The plain-field permutation strategy: every operation is direct field
//! arithmetic, and each layer is proved to compute the corresponding
//! specification function over the state's values.

use vstd::prelude::*;
use vstd::arithmetic::power::pow;
use vstd::arithmetic::div_mod::{lemma_add_mod_noop, lemma_add_mod_noop_right,
    lemma_mul_mod_noop, lemma_mul_mod_noop_left};

use crate::constants::{constant_g0, constant_g1, constant_h, affine_constant, g0_value, g1_value,
    h_value, aff_value};
use crate::field::{Fe, fe_modulus};
use crate::params::matrix_value;
use crate::strategies::{aff_row, all_wf, dot_row, fadd, fe_values, fmul, g0_row, g1_row, gtds_g,
    gtds_h, h_row, pair0_values, pair1_values, quintic_value, spec_affine_layer, spec_gtds,
    spec_gtds_rec, spec_mul_matrix, spec_permute, spec_round, spec_rounds, zero_row};
use crate::{ROUNDS, WIDTH};

verus! {

/// The composition of the executable quintic S-box's three field
/// multiplications equals the fifth power in the field.
proof fn lemma_quintic(x: int)
    ensures
        fmul(fmul(fmul(x, x), fmul(x, x)), x) == quintic_value(x),
{
    let m = fe_modulus();
    lemma_mul_mod_noop(x * x, x * x, m);
    lemma_mul_mod_noop_left((x * x) * (x * x), x, m);
    reveal_with_fuel(pow, 6);
    assert(pow(x, 5) == x * (x * (x * (x * (x * 1)))));
    assert((x * x) * (x * x) * x == x * (x * (x * (x * (x * 1))))) by (nonlinear_arith);
}

/// The executable evaluation order of the quadratic `g` equals its
/// specification.
proof fn lemma_eval_g(s: int, c0: int, c1: int)
    ensures
        fadd(fadd(fmul(s, c0), fmul(s, s)), c1) == gtds_g(s, c0, c1),
{
    let m = fe_modulus();
    lemma_add_mod_noop(s * c0, s * s, m);
    lemma_add_mod_noop_right(c1, s * c0 + s * s, m);
}

/// The executable evaluation order of the quadratic `h` equals its
/// specification.
proof fn lemma_eval_h(s: int, c: int)
    ensures
        fadd(fmul(s, c), fmul(s, s)) == gtds_h(s, c),
{
    let m = fe_modulus();
    lemma_add_mod_noop(s * c, s * s, m);
}

/// Entry `(i, j)` of the active-width diffusion matrix, as a field
/// element.
fn matrix_entry(i: usize, j: usize) -> (r: Fe)
    requires
        i < WIDTH,
        j < WIDTH,
    ensures
        r.wf(),
        r.value() == matrix_value(i as int, j as int, WIDTH as int),
{
    let v: u64 = if j >= i {
        (j - i) as u64
    } else {
        (j + WIDTH - i) as u64
    };
    Fe::from_u64(v)
}

/// Collects round `r`'s `g` constant pairs for the active width.
fn round_g(r: usize) -> (g: Vec<[Fe; 2]>)
    requires
        r < ROUNDS,
    ensures
        g@.len() == WIDTH - 1,
        pair0_values(g@) == g0_row(r as int),
        pair1_values(g@) == g1_row(r as int),
{
    let mut g: Vec<[Fe; 2]> = Vec::new();
    let mut j: usize = 0;
    while j < WIDTH - 1
        invariant
            j <= WIDTH - 1,
            r < ROUNDS,
            g@.len() == j,
            forall|l: int|
                0 <= l < j ==> (#[trigger] g@[l])@[0].value() == g0_value(r as int, l)
                    && g@[l]@[1].value() == g1_value(r as int, l),
        decreases WIDTH - 1 - j,
    {
        let c0 = constant_g0(r, j);
        let c1 = constant_g1(r, j);
        let pair = [c0, c1];
        proof {
            assert(pair@ =~= seq![c0, c1]);
        }
        g.push(pair);
        j += 1;
    }
    proof {
        assert(pair0_values(g@) =~= g0_row(r as int));
        assert(pair1_values(g@) =~= g1_row(r as int));
    }
    g
}

/// Collects round `r`'s `h` constants for the active width.
fn round_h(r: usize) -> (h: Vec<Fe>)
    requires
        r < ROUNDS,
    ensures
        h@.len() == WIDTH - 1,
        fe_values(h@) == h_row(r as int),
{
    let mut h: Vec<Fe> = Vec::new();
    let mut j: usize = 0;
    while j < WIDTH - 1
        invariant
            j <= WIDTH - 1,
            r < ROUNDS,
            h@.len() == j,
            forall|l: int| 0 <= l < j ==> (#[trigger] h@[l]).value() == h_value(r as int, l),
        decreases WIDTH - 1 - j,
    {
        h.push(constant_h(r, j));
        j += 1;
    }
    proof {
        assert(fe_values(h@) =~= h_row(r as int));
    }
    h
}

/// Collects round `r`'s affine constants for the active width.
fn round_aff(r: usize) -> (a: Vec<Fe>)
    requires
        r < ROUNDS,
    ensures
        a@.len() == WIDTH,
        fe_values(a@) == aff_row(r as int),
{
    let mut a: Vec<Fe> = Vec::new();
    let mut j: usize = 0;
    while j < WIDTH
        invariant
            j <= WIDTH,
            r < ROUNDS,
            a@.len() == j,
            forall|l: int| 0 <= l < j ==> (#[trigger] a@[l]).value() == aff_value(r as int, l),
        decreases WIDTH - j,
    {
        a.push(affine_constant(r, j));
        j += 1;
    }
    proof {
        assert(fe_values(a@) =~= aff_row(r as int));
    }
    a
}

/// The all-zero constant vector for the constant-free affine layer.
fn zero_constants() -> (z: Vec<Fe>)
    ensures
        z@.len() == WIDTH,
        fe_values(z@) == zero_row(),
{
    let mut z: Vec<Fe> = Vec::new();
    let mut j: usize = 0;
    while j < WIDTH
        invariant
            j <= WIDTH,
            z@.len() == j,
            forall|l: int| 0 <= l < j ==> (#[trigger] z@[l]).value() == 0,
        decreases WIDTH - j,
    {
        z.push(Fe::zero());
        j += 1;
    }
    proof {
        assert(fe_values(z@) =~= zero_row());
    }
    z
}

/// The permutation strategy over plain field elements.
pub struct ScalarStrategy {}

impl Default for ScalarStrategy {
    fn default() -> (r: ScalarStrategy)
        ensures
            r == (ScalarStrategy {  }),
    {
        ScalarStrategy {  }
    }
}

impl ScalarStrategy {
    /// Constructs a new `ScalarStrategy`.
    pub fn new() -> (r: ScalarStrategy)
        ensures
            r == (ScalarStrategy {  }),
    {
        ScalarStrategy {  }
    }

    /// The quintic S-box: replaces the element by its fifth power,
    /// computed as two squarings and one multiplication.
    pub fn quinti_s_box(&mut self, input: &mut Fe)
        ensures
            final(input).wf(),
            final(input).value() == quintic_value(old(input).value()),
    {
        let x = *input;
        let a = x.square();
        let b = a.square();
        let r = b.mul(&x);
        proof {
            lemma_quintic(x.value());
        }
        *input = r;
    }

    /// The nonlinear layer ("GTDS"): the last position goes through the
    /// inverse high-degree S-box; every other position, from right to
    /// left, through the quintic S-box followed by the quadratic gate
    /// keyed by the given round constants, with a single accumulator
    /// threaded across positions.
    pub fn gtds(&mut self, input: &mut Vec<Fe>, constants_g: &Vec<[Fe; 2]>, constants_h: &Vec<Fe>)
        requires
            old(input)@.len() == WIDTH,
            constants_g@.len() == WIDTH - 1,
            constants_h@.len() == WIDTH - 1,
        ensures
            final(input)@.len() == WIDTH,
            all_wf(final(input)@),
            fe_values(final(input)@) == spec_gtds(
                fe_values(old(input)@),
                pair0_values(constants_g@),
                pair1_values(constants_g@),
                fe_values(constants_h@),
            ),
    {
        let ghost inp0 = fe_values(input@);
        let ghost g0v = pair0_values(constants_g@);
        let ghost g1v = pair1_values(constants_g@);
        let ghost hv = fe_values(constants_h@);
        let ghost goal = spec_gtds(inp0, g0v, g1v, hv);

        // Copy the state.
        let mut output: Vec<Fe> = Vec::new();
        let mut k: usize = 0;
        while k < WIDTH
            invariant
                k <= WIDTH,
                input@.len() == WIDTH,
                inp0 == fe_values(input@),
                output@.len() == k,
                forall|l: int| 0 <= l < k ==> output@[l] == input@[l],
            decreases WIDTH - k,
        {
            output.push(input[k]);
            k += 1;
        }

        // Inverse high-degree S-box on the last position.
        let last = output[WIDTH - 1].inv_sbox();
        output[WIDTH - 1] = last;

        let mut s = input[WIDTH - 1].add(&last);

        proof {
            assert(fe_values(output@) =~= inp0.update(WIDTH - 1, last.value()));
            assert(spec_gtds_rec(inp0, g0v, g1v, hv, fe_values(output@), s.value(), WIDTH - 2)
                == goal);
        }

        let mut i: usize = WIDTH - 1;
        while i > 0
            invariant
                i <= WIDTH - 1,
                input@.len() == WIDTH,
                inp0 == fe_values(input@),
                constants_g@.len() == WIDTH - 1,
                constants_h@.len() == WIDTH - 1,
                g0v == pair0_values(constants_g@),
                g1v == pair1_values(constants_g@),
                hv == fe_values(constants_h@),
                goal == spec_gtds(inp0, g0v, g1v, hv),
                output@.len() == WIDTH,
                forall|l: int| i <= l < WIDTH ==> (#[trigger] output@[l]).wf(),
                spec_gtds_rec(inp0, g0v, g1v, hv, fe_values(output@), s.value(), i as int - 1)
                    == goal,
            decreases i,
        {
            i -= 1;
            let ghost outv = fe_values(output@);
            let ghost sv = s.value();

            // Quintic S-box on position i.
            let xi = output[i];
            let a = xi.square();
            let b = a.square();
            let q = b.mul(&xi);

            // Evaluate g and h.
            let tmp = s.square();
            let mut g = s.mul(&constants_g[i][0]);
            let mut h = s.mul(&constants_h[i]);
            g = g.add(&tmp);
            h = h.add(&tmp);
            g = g.add(&constants_g[i][1]);

            // Multiply by g and add h.
            let prod = q.mul(&g);
            let oi = prod.add(&h);
            output[i] = oi;

            // Thread the accumulator.
            let s1 = s.add(&oi);
            s = s1.add(&input[i]);

            proof {
                lemma_quintic(xi.value());
                lemma_eval_g(sv, g0v[i as int], g1v[i as int]);
                lemma_eval_h(sv, hv[i as int]);
                assert(q.value() == quintic_value(outv[i as int]));
                assert(g.value() == gtds_g(sv, g0v[i as int], g1v[i as int]));
                assert(h.value() == gtds_h(sv, hv[i as int]));
                assert(fe_values(output@) =~= outv.update(i as int, oi.value()));
                assert(s.value() == fadd(fadd(sv, oi.value()), inp0[i as int]));
                assert(spec_gtds_rec(inp0, g0v, g1v, hv, outv, sv, i as int) == spec_gtds_rec(
                    inp0,
                    g0v,
                    g1v,
                    hv,
                    fe_values(output@),
                    s.value(),
                    i as int - 1,
                ));
            }
        }
        proof {
            assert(spec_gtds_rec(inp0, g0v, g1v, hv, fe_values(output@), s.value(), -1)
                == fe_values(output@));
        }
        // Replace the state with the output.
        *input = output;
    }

    /// The diffusion layer: replaces the state by the matrix-vector
    /// product of the circulant diffusion matrix with the state.
    pub fn mul_matrix(&mut self, input: &mut Vec<Fe>)
        requires
            old(input)@.len() == WIDTH,
        ensures
            final(input)@.len() == WIDTH,
            all_wf(final(input)@),
            fe_values(final(input)@) == spec_mul_matrix(fe_values(old(input)@)),
    {
        let ghost v = fe_values(input@);
        let mut result: Vec<Fe> = Vec::new();
        let mut row: usize = 0;
        while row < WIDTH
            invariant
                row <= WIDTH,
                input@.len() == WIDTH,
                v == fe_values(input@),
                result@.len() == row,
                forall|k: int|
                    0 <= k < row ==> (#[trigger] result@[k]).wf() && result@[k].value() == dot_row(
                        k,
                        v,
                        WIDTH as int,
                    ),
            decreases WIDTH - row,
        {
            let mut acc = Fe::zero();
            let mut col: usize = 0;
            while col < WIDTH
                invariant
                    col <= WIDTH,
                    row < WIDTH,
                    input@.len() == WIDTH,
                    v == fe_values(input@),
                    acc.wf(),
                    acc.value() == dot_row(row as int, v, col as int),
                decreases WIDTH - col,
            {
                let m = matrix_entry(row, col);
                let t = m.mul(&input[col]);
                let acc2 = acc.add(&t);
                proof {
                    assert(dot_row(row as int, v, col as int + 1) == fadd(
                        dot_row(row as int, v, col as int),
                        fmul(matrix_value(row as int, col as int, WIDTH as int), v[col as int]),
                    ));
                }
                acc = acc2;
                col += 1;
            }
            result.push(acc);
            row += 1;
        }
        proof {
            assert(fe_values(result@) =~= spec_mul_matrix(v));
        }
        *input = result;
    }

    /// The affine layer: the diffusion layer followed by the element-wise
    /// addition of a round-constant vector.
    pub fn affine_layer(&mut self, input: &mut Vec<Fe>, constants_aff: &Vec<Fe>)
        requires
            old(input)@.len() == WIDTH,
            constants_aff@.len() == WIDTH,
        ensures
            final(input)@.len() == WIDTH,
            all_wf(final(input)@),
            fe_values(final(input)@) == spec_affine_layer(
                fe_values(old(input)@),
                fe_values(constants_aff@),
            ),
    {
        let ghost v0 = fe_values(input@);
        self.mul_matrix(input);
        let ghost mm = fe_values(input@);
        let mut i: usize = 0;
        while i < WIDTH
            invariant
                i <= WIDTH,
                input@.len() == WIDTH,
                constants_aff@.len() == WIDTH,
                mm == spec_mul_matrix(v0),
                forall|k: int| i <= k < WIDTH ==> (#[trigger] input@[k]).wf(),
                forall|k: int| i <= k < WIDTH ==> (#[trigger] input@[k]).value() == mm[k],
                forall|k: int|
                    0 <= k < i ==> (#[trigger] input@[k]).wf() && input@[k].value() == fadd(
                        mm[k],
                        fe_values(constants_aff@)[k],
                    ),
            decreases WIDTH - i,
        {
            let t = input[i].add(&constants_aff[i]);
            input[i] = t;
            i += 1;
        }
        proof {
            assert(fe_values(input@) =~= spec_affine_layer(v0, fe_values(constants_aff@)));
        }
    }

    /// The full permutation: the diffusion layer, a constant-free affine
    /// layer (a second diffusion), then for each round the nonlinear
    /// layer followed by the affine layer with that round's constants.
    pub fn perm(&mut self, data: &mut Vec<Fe>)
        requires
            old(data)@.len() == WIDTH,
        ensures
            final(data)@.len() == WIDTH,
            all_wf(final(data)@),
            fe_values(final(data)@) == spec_permute(fe_values(old(data)@)),
    {
        let ghost v0 = fe_values(data@);
        self.mul_matrix(data);
        let zeros = zero_constants();
        self.affine_layer(data, &zeros);
        let ghost base = fe_values(data@);
        proof {
            assert(base == spec_affine_layer(spec_mul_matrix(v0), zero_row()));
        }
        let mut r: usize = 0;
        while r < ROUNDS
            invariant
                r <= ROUNDS,
                data@.len() == WIDTH,
                all_wf(data@),
                fe_values(data@) == spec_rounds(base, r as int),
                base == spec_affine_layer(spec_mul_matrix(v0), zero_row()),
            decreases ROUNDS - r,
        {
            let g = round_g(r);
            let h = round_h(r);
            let aff = round_aff(r);
            let ghost vr = fe_values(data@);
            self.gtds(data, &g, &h);
            self.affine_layer(data, &aff);
            proof {
                assert(fe_values(data@) == spec_round(vr, r as int));
                assert(spec_rounds(base, r as int + 1) == spec_round(
                    spec_rounds(base, r as int),
                    r as int,
                ));
            }
            r += 1;
        }
        proof {
            assert(fe_values(data@) == spec_permute(v0));
        }
    }
}

} // verus!
