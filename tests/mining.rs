use hashchain::block::Block;
use hashchain::error::ChainError;
use hashchain::mining::mine_block;

#[test]
fn mining_finds_first_nonce() {
    let (nonce, hash) = mine_block(1, 1000, "tx", "abc", 2, None).unwrap();
    assert_eq!(nonce, 47);
    assert_eq!(hash, "00c2b54cf3e4d2f3e07ed4c97a31bdafb3fee7565af9b06c14264ffa27b06ed0");
}

#[test]
fn mining_within_enough_attempts_succeeds() {
    let (nonce, _) = mine_block(1, 1000, "tx", "abc", 2, Some(48)).unwrap();
    assert_eq!(nonce, 47);
}

#[test]
fn mining_stops_at_the_cap() {
    assert_eq!(mine_block(1, 1000, "tx", "abc", 2, Some(47)), Err(ChainError::ExhaustedSearchSpace));
}

#[test]
fn mining_with_no_attempts_is_exhausted() {
    assert_eq!(mine_block(1, 1000, "tx", "abc", 0, Some(0)), Err(ChainError::ExhaustedSearchSpace));
}

#[test]
fn mining_at_difficulty_zero_takes_nonce_zero() {
    let (nonce, hash) = mine_block(1, 2, "a", "b", 0, None).unwrap();
    assert_eq!(nonce, 0);
    assert_eq!(hash, "75657a2eebb62e6a7331e2e8aebe919162fc0d4edeef2db9bd950e17b6a45e6a");
}

#[test]
fn mining_beyond_hash_length_is_exhausted() {
    assert_eq!(mine_block(1, 2, "a", "b", 65, Some(20)), Err(ChainError::ExhaustedSearchSpace));
}

#[test]
fn mined_block_carries_its_fields() {
    let b = Block::mine_at(1, 1000, "tx".to_string(), "abc".to_string(), 2, None).unwrap();
    assert_eq!(b.index(), 1);
    assert_eq!(b.timestamp(), 1000);
    assert_eq!(b.data(), "tx");
    assert_eq!(b.previous_hash(), "abc");
    assert_eq!(b.nonce(), 47);
    assert_eq!(b.hash(), "00c2b54cf3e4d2f3e07ed4c97a31bdafb3fee7565af9b06c14264ffa27b06ed0");
    assert!(b.hash_is_consistent());
}

#[test]
fn block_stamped_now_meets_difficulty() {
    let b = Block::new(3, "now".to_string(), "prev".to_string(), 1).unwrap();
    assert_eq!(b.index(), 3);
    assert!(b.hash().starts_with('0'));
    assert!(b.hash_is_consistent());
}

#[test]
fn block_from_parts_is_unchecked() {
    let b = Block::from_parts(1, 2, "a".to_string(), "b".to_string(), "not a digest".to_string(), 3);
    assert_eq!(b.hash(), "not a digest");
    assert!(!b.hash_is_consistent());
}

#[test]
fn links_to_compares_hash_with_link() {
    let a = Block::from_parts(0, 0, "g".to_string(), "0".to_string(), "h0".to_string(), 0);
    let b = Block::from_parts(1, 0, "x".to_string(), "h0".to_string(), "h1".to_string(), 0);
    assert!(b.links_to(&a));
    assert!(!a.links_to(&b));
}
