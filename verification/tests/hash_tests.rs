use core::hash::{BuildHasher, Hasher};
use relock::U64Hash;
use std::collections::HashSet;

#[test]
fn test_with_hash_set() {
    let mut set = HashSet::<u64, U64Hash>::with_hasher(U64Hash::default());
    set.insert(123);
    set.remove(&123);
}

#[test]
fn empty_input_yields_seed() {
    let hasher = U64Hash::new();
    assert_eq!(hasher.finish(), 1);
}

#[test]
fn same_bytes_hash_the_same() {
    let mut a = U64Hash::new();
    let mut b = U64Hash::new();
    a.write(b"some bytes to fold in");
    b.write(b"some bytes to fold in");
    assert_eq!(a.finish(), b.finish());
}

#[test]
fn split_writes_match_one_write() {
    let mut split = U64Hash::new();
    split.write(b"some ");
    split.write(b"bytes");
    let mut whole = U64Hash::new();
    whole.write(b"some bytes");
    assert_eq!(split.finish(), whole.finish());
}

#[test]
fn rolling_formula_exact_value() {
    // 31 * 1 + 1 = 32, then 31 * 32 + 2 = 994.
    let mut hasher = U64Hash::new();
    hasher.write(&[1u8, 2u8]);
    assert_eq!(hasher.finish(), 994);
}

#[test]
fn write_u64_sets_accumulator_directly() {
    let mut hasher = U64Hash::new();
    hasher.write_u64(0xDEAD_BEEF);
    assert_eq!(hasher.finish(), 0xDEAD_BEEF);
}

#[test]
fn built_hasher_starts_from_builder_state() {
    let mut builder = U64Hash::new();
    builder.write_u64(77);
    let built = builder.build_hasher();
    assert_eq!(built.finish(), 77);
}

#[test]
fn set_distinguishes_keys() {
    let mut set = HashSet::<u64, U64Hash>::with_hasher(U64Hash::default());
    set.insert(1);
    set.insert(2);
    assert!(set.contains(&1));
    assert!(set.contains(&2));
    set.remove(&1);
    assert!(!set.contains(&1));
    assert!(set.contains(&2));
}
