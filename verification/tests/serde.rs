use arion::field::Fe;
use arion::tree::{ArionBranch, ArionLevel, DecodeError};
use arion::WIDTH;

#[test]
fn branch_serde() {
    type Branch = ArionBranch<17>;

    let mut arion_level = ArionLevel::default();
    arion_level.index = 0xbeef;
    arion_level.level[WIDTH - 2] = Fe::from_u64(42);

    let mut branch = Branch::default();
    branch.root = Fe::from_u64(4);
    branch.path[7] = arion_level;

    let branch_bytes = branch.to_bytes();
    let deserialized_branch =
        Branch::from_bytes(&branch_bytes).expect("Deserializing should succeed");

    assert_eq!(branch.root, deserialized_branch.root);
    for (level, deserialized_level) in branch.path.iter().zip(&deserialized_branch.path) {
        assert_eq!(level.index, deserialized_level.index);
        for (scalar, deserialized_scalar) in level.level.iter().zip(&deserialized_level.level) {
            assert_eq!(scalar, deserialized_scalar);
        }
    }
}

#[test]
fn level_serde_round_trip() {
    let mut level = ArionLevel::default();
    level.index = u64::MAX;
    level.level[0] = Fe::from_u64(123456789);
    level.level[WIDTH - 1] = Fe::zero().sub(&Fe::one());

    let bytes = level.to_bytes();
    assert_eq!(bytes.len(), WIDTH * 32 + 8);
    let back = ArionLevel::from_bytes(&bytes).expect("round trip must succeed");
    assert_eq!(back.index, u64::MAX);
    for i in 0..WIDTH {
        assert_eq!(back.level[i], level.level[i]);
    }
}

#[test]
fn level_decode_rejects_truncated_buffer() {
    let bytes = vec![0u8; WIDTH * 32 + 7];
    assert_eq!(ArionLevel::from_bytes(&bytes), Err(DecodeError::Truncated));
    let bytes = vec![0u8; WIDTH * 32 + 9];
    assert_eq!(ArionLevel::from_bytes(&bytes), Err(DecodeError::Truncated));
}

#[test]
fn level_decode_rejects_bad_field_encoding() {
    let mut bytes = vec![0u8; WIDTH * 32 + 8];
    // An all-ones field chunk denotes a value far above the modulus.
    for i in 64..96 {
        bytes[i] = 0xff;
    }
    assert_eq!(
        ArionLevel::from_bytes(&bytes),
        Err(DecodeError::InvalidEncoding)
    );
}

#[test]
fn branch_decode_rejects_truncated_buffer() {
    let bytes = vec![0u8; 2 * (WIDTH * 32 + 8)];
    assert_eq!(
        ArionBranch::<2>::from_bytes(&bytes),
        Err(DecodeError::Truncated)
    );
}

#[test]
fn branch_decode_rejects_bad_root_encoding() {
    let size = 2 * (WIDTH * 32 + 8) + 32;
    let mut bytes = vec![0u8; size];
    for i in (size - 32)..size {
        bytes[i] = 0xff;
    }
    assert_eq!(
        ArionBranch::<2>::from_bytes(&bytes),
        Err(DecodeError::InvalidEncoding)
    );
}

#[test]
fn branch_all_zero_round_trip() {
    let branch = ArionBranch::<3>::default();
    let bytes = branch.to_bytes();
    assert_eq!(bytes.len(), 3 * (WIDTH * 32 + 8) + 32);
    let back = ArionBranch::<3>::from_bytes(&bytes).expect("round trip must succeed");
    assert_eq!(back.root, Fe::zero());
    for level in &back.path {
        assert_eq!(level.index, 0);
        for f in &level.level {
            assert_eq!(*f, Fe::zero());
        }
    }
}
