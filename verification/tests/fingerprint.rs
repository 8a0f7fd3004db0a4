//! Tests for the state fingerprint.

use arena_core::checksum::{checksum_state, fletcher16};

#[test]
fn fletcher16_known_vector() {
    assert_eq!(fletcher16(b"abcde"), 0xC8F0);
    assert_eq!(fletcher16(b""), 0);
    assert_eq!(fletcher16(&[0u8]), 0);
    assert_eq!(fletcher16(&[1u8]), 0x0101);
}

#[test]
fn identical_states_identical_checksums() {
    let a = checksum_state(11796480, 0, 0, 0);
    let b = checksum_state(11796480, 0, 0, 0);
    assert_eq!(a, b);
    assert_eq!(a, 28088);
}

#[test]
fn near_miss_states_differ() {
    let base = checksum_state(11796480, 0, 0, 0);
    assert_ne!(base, checksum_state(11796481, 0, 0, 0));
    assert_ne!(base, checksum_state(11796479, 0, 0, 0));
    assert_ne!(base, checksum_state(11796480, 1, 0, 0));
    assert_ne!(base, checksum_state(11796480, 0, 1, 0));
    assert_ne!(base, checksum_state(11796480, 0, 0, 1));
    assert_eq!(checksum_state(11796480, 0, 0, 1), 30137);
}

#[test]
fn negative_components_serialize_distinctly() {
    assert_ne!(checksum_state(-1, 0, 0, 0), checksum_state(1, 0, 0, 0));
    assert_ne!(checksum_state(0, -5, 0, 0), checksum_state(0, 5, 0, 0));
    assert_eq!(checksum_state(0, 0, 0, 0), 16388);
}
