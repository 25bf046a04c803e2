use arion::field::Fe;
use arion::strategies::ScalarStrategy;
use arion::WIDTH;

fn state_of(values: &[u64]) -> Vec<Fe> {
    values.iter().map(|v| Fe::from_u64(*v)).collect()
}

#[test]
fn quintic_s_box_fifth_power() {
    let mut strategy = ScalarStrategy::new();
    let mut x = Fe::from_u64(2);
    strategy.quinti_s_box(&mut x);
    assert_eq!(x, Fe::from_u64(32));
    let mut y = Fe::from_u64(3);
    strategy.quinti_s_box(&mut y);
    assert_eq!(y, Fe::from_u64(243));
    let mut z = Fe::zero();
    strategy.quinti_s_box(&mut z);
    assert_eq!(z, Fe::zero());
}

#[test]
fn diffusion_matrix_rows() {
    // On the first basis vector the matrix-vector product reads off the
    // matrix's first column: entry (i, 0) of the circulant of
    // [0, 1, ..., WIDTH - 1] is (0 - i) mod WIDTH.
    let mut strategy = ScalarStrategy::new();
    let mut state = state_of(&[1, 0, 0, 0, 0]);
    strategy.mul_matrix(&mut state);
    let expected = state_of(&[0, 4, 3, 2, 1]);
    assert_eq!(state, expected);
}

#[test]
fn affine_layer_adds_constants_after_diffusion() {
    let mut strategy = ScalarStrategy::new();
    let mut a = state_of(&[1, 0, 0, 0, 0]);
    let constants: Vec<Fe> = state_of(&[10, 20, 30, 40, 50]);
    strategy.affine_layer(&mut a, &constants);
    let expected = state_of(&[10, 24, 33, 42, 51]);
    assert_eq!(a, expected);
}

#[test]
fn gtds_matches_manual_recomputation() {
    // Recompute the nonlinear layer by hand from its definition: the
    // inverse S-box on the last position, then right to left the quintic
    // S-box and the quadratic gate, threading one accumulator.
    let input = state_of(&[1, 2, 3, 4, 5]);
    let round = 0usize;
    let mut g: Vec<[Fe; 2]> = Vec::new();
    let mut h: Vec<Fe> = Vec::new();
    for j in 0..(WIDTH - 1) {
        g.push([
            arion::constants::constant_g0(round, j),
            arion::constants::constant_g1(round, j),
        ]);
        h.push(arion::constants::constant_h(round, j));
    }

    let mut expected = input.clone();
    expected[WIDTH - 1] = input[WIDTH - 1].inv_sbox();
    let mut s = input[WIDTH - 1].add(&expected[WIDTH - 1]);
    for i in (0..WIDTH - 1).rev() {
        let q = expected[i].square().square().mul(&expected[i]);
        let s2 = s.square();
        let gv = s2.add(&g[i][0].mul(&s)).add(&g[i][1]);
        let hv = s2.add(&h[i].mul(&s));
        expected[i] = q.mul(&gv).add(&hv);
        s = s.add(&expected[i]).add(&input[i]);
    }

    let mut state = input.clone();
    ScalarStrategy::new().gtds(&mut state, &g, &h);
    assert_eq!(state, expected);
}

#[test]
fn permute_is_layer_composition() {
    // The full permutation is the diffusion layer, a constant-free
    // affine layer, then each round's nonlinear and affine layers.
    let input = state_of(&[9, 8, 7, 6, 5]);

    let mut expected = input.clone();
    let mut strategy = ScalarStrategy::new();
    strategy.mul_matrix(&mut expected);
    let zeros = state_of(&[0, 0, 0, 0, 0]);
    strategy.affine_layer(&mut expected, &zeros);
    for r in 0..arion::ROUNDS {
        let mut g: Vec<[Fe; 2]> = Vec::new();
        let mut h: Vec<Fe> = Vec::new();
        let mut aff: Vec<Fe> = Vec::new();
        for j in 0..(WIDTH - 1) {
            g.push([
                arion::constants::constant_g0(r, j),
                arion::constants::constant_g1(r, j),
            ]);
            h.push(arion::constants::constant_h(r, j));
        }
        for j in 0..WIDTH {
            aff.push(arion::constants::affine_constant(r, j));
        }
        strategy.gtds(&mut expected, &g, &h);
        strategy.affine_layer(&mut expected, &aff);
    }

    let mut state = input.clone();
    ScalarStrategy::new().perm(&mut state);
    assert_eq!(state, expected);
}

#[test]
fn permute_deterministic() {
    let mut a = state_of(&[1, 2, 3, 4, 5]);
    let mut b = state_of(&[1, 2, 3, 4, 5]);
    ScalarStrategy::new().perm(&mut a);
    ScalarStrategy::new().perm(&mut b);
    assert_eq!(a, b);
    // A changed input must not reproduce the same state here.
    let mut c = state_of(&[1, 2, 3, 4, 6]);
    ScalarStrategy::new().perm(&mut c);
    assert_ne!(a, c);
}

#[test]
fn permute_mixes_the_state() {
    let mut state = state_of(&[0, 0, 0, 0, 0]);
    let before = state.clone();
    ScalarStrategy::new().perm(&mut state);
    assert_eq!(state.len(), WIDTH);
    assert_ne!(state, before);
    for f in &state {
        assert!(f.is_canonical());
    }
}
