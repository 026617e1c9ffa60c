use std::hash::{Hash, Hasher};

use fortress_rollback::checksum::{
    checksum_of_encoding, fletcher16, hash_bytes_fnv1a, ChecksumAlgorithm, ChecksumError,
};
use fortress_rollback::hash::{fnv1a_hash, DeterministicBuildHasher, DeterministicHasher, FNV_OFFSET_BASIS};
use std::hash::BuildHasher;

#[test]
fn writing_in_pieces_equals_writing_at_once() {
    let mut pieces = DeterministicHasher::new();
    pieces.write(b"roll");
    pieces.write(b"");
    pieces.write(b"back");
    let mut whole = DeterministicHasher::new();
    whole.write(b"rollback");
    assert_eq!(pieces.finish(), whole.finish());
    assert_eq!(u128::from(whole.finish()), hash_bytes_fnv1a(b"rollback"));
}

#[test]
fn convenience_hash_feeds_the_value_through_the_hasher() {
    let mut manual = DeterministicHasher::new();
    42i32.hash(&mut manual);
    assert_eq!(fnv1a_hash(&42i32), manual.finish());
    // the value's bytes were really fed
    assert_ne!(fnv1a_hash(&42i32), FNV_OFFSET_BASIS);
}

#[test]
fn built_hashers_start_at_the_offset_basis() {
    let builder = DeterministicBuildHasher;
    assert_eq!(builder.build_hasher().finish(), FNV_OFFSET_BASIS);
    assert_eq!(DeterministicHasher::default().finish(), FNV_OFFSET_BASIS);
    assert_eq!(builder.hash_one(7u8), fnv1a_hash(&7u8));
}

#[test]
fn fletcher16_known_values_and_bounds() {
    // "abcde" is a standard Fletcher-16 test vector
    assert_eq!(fletcher16(b"abcde"), 0xC8F0);
    assert_eq!(fletcher16(b"abcdef"), 0x2057);
    let big = vec![255u8; 1000];
    let c = fletcher16(&big);
    assert!(c >> 8 <= 254);
    assert!(c & 0xFF <= 254);
}

#[test]
fn checksum_of_encoding_picks_the_algorithm_and_reports_failures() {
    let bytes = vec![1u8, 2, 3];
    assert_eq!(
        checksum_of_encoding(ChecksumAlgorithm::Fnv1a, Ok(bytes.clone())),
        Ok(hash_bytes_fnv1a(&bytes))
    );
    assert_eq!(
        checksum_of_encoding(ChecksumAlgorithm::Fletcher16, Ok(bytes.clone())),
        Ok(u128::from(fletcher16(&bytes)))
    );
    let err = checksum_of_encoding(ChecksumAlgorithm::Fletcher16, Err("boom".to_string()))
        .unwrap_err();
    assert_eq!(
        err,
        ChecksumError::SerializationFailed {
            algorithm: ChecksumAlgorithm::Fletcher16,
            message: "boom".to_string(),
        }
    );
    assert_eq!(
        err.to_string(),
        "Fletcher-16 checksum failed: serialization error: boom"
    );
}
