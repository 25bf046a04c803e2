use arion::constants::{affine_constant, constant_g0, constant_g1, constant_h};
use arion::field::Fe;
use arion::params::ArionParams;
use arion::{MAX_ROUNDS, MAX_WIDTH, ROUNDS, WIDTH};

#[test]
fn check_constants_g_generation() {
    let params = ArionParams::new(WIDTH, ROUNDS);
    for i in 0..ROUNDS {
        for j in 0..(WIDTH - 1) {
            assert_eq!(params.constants_g[i][j][0], constant_g0(i, j));
            assert_eq!(params.constants_g[i][j][1], constant_g1(i, j));
        }
    }
}

#[test]
fn check_constants_h_generation() {
    let params = ArionParams::new(WIDTH, ROUNDS);
    for i in 0..ROUNDS {
        for j in 0..(WIDTH - 1) {
            assert_eq!(params.constants_h[i][j], constant_h(i, j));
        }
    }
}

#[test]
fn check_constants_aff_generation() {
    let params = ArionParams::new(WIDTH, ROUNDS);
    for i in 0..ROUNDS {
        for j in 0..WIDTH {
            assert_eq!(params.constants_aff[i][j], affine_constant(i, j));
        }
    }
}

#[test]
fn check_matrix_generation() {
    let params = ArionParams::new(WIDTH, ROUNDS);
    for i in 0..WIDTH {
        for j in 0..WIDTH {
            let expected = if j >= i { j - i } else { j + WIDTH - i };
            assert_eq!(params.mat[i][j], Fe::from_u64(expected as u64));
        }
    }
}

#[test]
fn full_table_slice() {
    let params = ArionParams::new(MAX_WIDTH, MAX_ROUNDS);
    assert_eq!(params.constants_g.len(), MAX_ROUNDS);
    assert_eq!(params.constants_aff.len(), MAX_ROUNDS);
    for i in 0..MAX_ROUNDS {
        assert_eq!(params.constants_g[i].len(), MAX_WIDTH - 1);
        assert_eq!(params.constants_aff[i].len(), MAX_WIDTH);
        for j in 0..(MAX_WIDTH - 1) {
            assert_eq!(params.constants_g[i][j][0], constant_g0(i, j));
            assert_eq!(params.constants_g[i][j][1], constant_g1(i, j));
            assert_eq!(params.constants_h[i][j], constant_h(i, j));
        }
        for j in 0..MAX_WIDTH {
            assert_eq!(params.constants_aff[i][j], affine_constant(i, j));
        }
    }
}

#[test]
fn minimal_width_slice() {
    let params = ArionParams::new(1, 0);
    assert_eq!(params.n, 1);
    assert_eq!(params.rounds, 0);
    assert_eq!(params.constants_g.len(), 0);
    assert_eq!(params.mat.len(), 1);
    assert_eq!(params.mat[0][0], Fe::zero());
}
