use arion::constants::{constant_g0, constant_g1};
use arion::{MAX_ROUNDS, MAX_WIDTH, ROUNDS, WIDTH};

#[test]
fn check_for_irreducibility_of_polynomials() {
    for i in 0..ROUNDS {
        for j in 0..(WIDTH - 1) {
            let g0 = constant_g0(i, j);
            let g1 = constant_g1(i, j);
            let val = g0.square().sub(&g1.double().double());
            assert_eq!(val.legendre_symbol(), -1i8);
        }
    }
}

#[test]
fn golden_table_values() {
    // Spot-check raw limb values of the published domain-parameter
    // table.
    assert_eq!(
        arion::constants::affine_constant(0, 0).limbs,
        [
            970454385332725214,
            4735158914852834846,
            16702983313962767143,
            7375736764391876140
        ]
    );
    assert_eq!(
        constant_g0(0, 0).limbs,
        [
            8118021754834449418,
            18137426088772698758,
            11203759450720152331,
            3900225123309009714
        ]
    );
    assert_eq!(
        constant_g1(0, 0).limbs,
        [
            14639014844555717986,
            10036122947945021134,
            16847282596167317246,
            7187814803256400694
        ]
    );
    assert_eq!(
        arion::constants::constant_h(5, 6).limbs,
        [
            5674536440827512799,
            4430291039549499721,
            13334935409224003304,
            7834257547345749173
        ]
    );
    assert_eq!(
        arion::constants::affine_constant(5, 7).limbs,
        [
            7426130465162481050,
            909871896371706739,
            26466638563414140,
            7269823781459537969
        ]
    );
}

#[test]
fn full_table_irreducibility() {
    for i in 0..MAX_ROUNDS {
        for j in 0..(MAX_WIDTH - 1) {
            let g0 = constant_g0(i, j);
            let g1 = constant_g1(i, j);
            let val = g0.square().sub(&g1.double().double());
            assert_eq!(val.legendre_symbol(), -1i8);
        }
    }
}
