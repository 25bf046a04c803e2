use arion::field::Fe;
use dusk_bls12_381::BlsScalar;

fn random_fe() -> Fe {
    // Clearing the top bits of the high limb keeps the value below the
    // modulus, whose high limb is 0x73ed_a753_299d_7d48.
    let limbs = [
        rand::random::<u64>(),
        rand::random::<u64>(),
        rand::random::<u64>(),
        rand::random::<u64>() >> 4,
    ];
    let f = Fe { limbs };
    assert!(f.is_canonical());
    f
}

// High degree inverse S-box is the inverse of `x^{257}`.
#[test]
fn high_degree_permutation_1000() {
    for _i in 1..1000 {
        let val = random_fe();
        let val_2 = val.inv_sbox();
        assert_eq!(val_2.pow257(), val);
    }
}

#[test]
fn arithmetic_small_values() {
    let two = Fe::from_u64(2);
    let three = Fe::from_u64(3);
    assert_eq!(two.add(&three), Fe::from_u64(5));
    assert_eq!(three.sub(&two), Fe::from_u64(1));
    assert_eq!(two.mul(&three), Fe::from_u64(6));
    assert_eq!(three.square(), Fe::from_u64(9));
    assert_eq!(three.double(), Fe::from_u64(6));
    assert_eq!(Fe::zero().add(&Fe::one()), Fe::one());
}

#[test]
fn subtraction_wraps_to_modulus() {
    // 0 - 1 must be p - 1, the largest canonical element.
    let minus_one = Fe::zero().sub(&Fe::one());
    let p_minus_one = Fe {
        limbs: [
            0xffffffff00000000,
            0x53bda402fffe5bfe,
            0x3339d80809a1d805,
            0x73eda753299d7d48,
        ],
    };
    assert_eq!(minus_one, p_minus_one);
    assert_eq!(minus_one.add(&Fe::one()), Fe::zero());
}

#[test]
fn legendre_symbol_values() {
    // Zero is neither a residue nor a non-residue.
    assert_eq!(Fe::zero().legendre_symbol(), 0i8);
    // A square is a residue.
    assert_eq!(Fe::from_u64(4).legendre_symbol(), 1i8);
    assert_eq!(Fe::from_u64(9).legendre_symbol(), 1i8);
    // 7 generates the multiplicative group of this field, so it is a
    // non-residue.
    assert_eq!(Fe::from_u64(7).legendre_symbol(), -1i8);
    for _ in 0..32 {
        let x = random_fe();
        let sq = x.square();
        if sq != Fe::zero() {
            assert_eq!(sq.legendre_symbol(), 1i8);
        }
    }
}

#[test]
fn byte_encoding_round_trip() {
    for _ in 0..64 {
        let x = random_fe();
        let bytes = x.to_bytes();
        assert_eq!(bytes.len(), 32);
        let back = Fe::from_bytes(&bytes).expect("canonical bytes must decode");
        assert_eq!(back, x);
    }
    let zero_bytes = Fe::zero().to_bytes();
    assert_eq!(zero_bytes, vec![0u8; 32]);
    assert_eq!(Fe::from_bytes(&zero_bytes), Some(Fe::zero()));
}

#[test]
fn byte_decoding_rejects_out_of_range() {
    // The modulus itself is not canonical.
    let p_bytes = [
        0x01, 0x00, 0x00, 0x00, 0xff, 0xff, 0xff, 0xff, 0xfe, 0x5b, 0xfe, 0xff, 0x02, 0xa4,
        0xbd, 0x53, 0x05, 0xd8, 0xa1, 0x09, 0x08, 0xd8, 0x39, 0x33, 0x48, 0x7d, 0x9d, 0x29,
        0x53, 0xa7, 0xed, 0x73,
    ];
    assert_eq!(Fe::from_bytes(&p_bytes), None);
    // All bits set is far above the modulus.
    assert_eq!(Fe::from_bytes(&[0xffu8; 32]), None);
    // The largest canonical element decodes.
    let mut pm1 = p_bytes;
    pm1[0] = 0x00;
    assert!(Fe::from_bytes(&pm1).is_some());
}

#[test]
fn agrees_with_reference_field() {
    // The trusted arithmetic must match the reference implementation it
    // wraps, observed through the canonical encoding.
    for _ in 0..32 {
        let a = random_fe();
        let b = random_fe();
        let ra = BlsScalar::from_raw(a.limbs);
        let rb = BlsScalar::from_raw(b.limbs);
        assert_eq!(a.add(&b).to_bytes().as_slice(), &(ra + rb).to_bytes()[..]);
        assert_eq!(a.mul(&b).to_bytes().as_slice(), &(ra * rb).to_bytes()[..]);
        assert_eq!(a.to_bytes().as_slice(), &ra.to_bytes()[..]);
    }
}
