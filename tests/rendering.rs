use hashchain::digest::{calculate_hash, preimage_text};
use hashchain::mining::meets_difficulty;
use hashchain::text::{decimal_text, hex_text};

#[test]
fn decimal_of_zero() {
    assert_eq!(decimal_text(0), "0");
}

#[test]
fn decimal_of_several_digits() {
    assert_eq!(decimal_text(42), "42");
    assert_eq!(decimal_text(1000), "1000");
}

#[test]
fn decimal_of_largest_u128() {
    assert_eq!(decimal_text(u128::MAX), "340282366920938463463374607431768211455");
}

#[test]
fn hex_is_lowercase_two_digits_per_byte() {
    assert_eq!(hex_text(&[0x00, 0xab, 0xff, 0x0f, 0x10]), "00abff0f10");
}

#[test]
fn hex_of_no_bytes_is_empty() {
    assert_eq!(hex_text(&[]), "");
}

#[test]
fn preimage_joins_fields_without_separators() {
    assert_eq!(preimage_text(1, 2, "a", "b", 3), "12ab3");
    assert_eq!(preimage_text(12, 345, "", "", 0), "123450");
}

#[test]
fn hash_is_sha256_hex_of_preimage() {
    assert_eq!(
        calculate_hash(1, 2, "a", "b", 3),
        "3afe35774cdbcb1b32ff08881707b4e3c264a94420512b157a412af10db24850"
    );
    assert_eq!(
        calculate_hash(0, 0, "Genesis Block", "0", 0),
        "4ab3cbc31380fe9b088b1e7a92a344692b086eaac010b8c56e8c5e975fb6463a"
    );
}

#[test]
fn hash_has_sixty_four_lowercase_hex_digits() {
    let h = calculate_hash(7, 8, "payload", "link", 9);
    assert_eq!(h.len(), 64);
    assert!(h.chars().all(|c| c.is_ascii_digit() || ('a'..='f').contains(&c)));
}

#[test]
fn hash_is_deterministic() {
    assert_eq!(calculate_hash(5, 6, "x", "y", 7), calculate_hash(5, 6, "x", "y", 7));
}

#[test]
fn field_boundaries_are_ambiguous() {
    assert_eq!(calculate_hash(1, 23, "", "", 0), calculate_hash(12, 3, "", "", 0));
}

#[test]
fn difficulty_counts_leading_zeros() {
    assert!(meets_difficulty("00ab", 0));
    assert!(meets_difficulty("00ab", 1));
    assert!(meets_difficulty("00ab", 2));
    assert!(!meets_difficulty("00ab", 3));
    assert!(!meets_difficulty("a0", 1));
}

#[test]
fn difficulty_longer_than_hash_is_never_met() {
    assert!(meets_difficulty("000", 3));
    assert!(!meets_difficulty("000", 4));
    assert!(meets_difficulty("", 0));
}
