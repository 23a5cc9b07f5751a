//! Proof of work: the difficulty predicate and the search for a nonce that
//! meets it.
use vstd::prelude::*;
use vstd::string::*;
use crate::digest::{block_digest, calculate_hash};
use crate::error::ChainError;

verus! {

/// A hash meets difficulty `d` when its first `d` characters are all `'0'`.
pub open spec fn meets(hash: Seq<char>, d: nat) -> bool {
    &&& d <= hash.len()
    &&& forall|i: int| 0 <= i < d ==> hash[i] == '0'
}

/// How many nonces a search with this cap tries: `Some(n)` tries `0..n`, and
/// `None` tries every `u64`.
pub open spec fn attempts(cap: Option<u64>) -> nat {
    match cap {
        Some(n) => n as nat,
        None => u64::MAX as nat + 1,
    }
}

/// The digest of a candidate block under the given nonce meets the difficulty.
pub open spec fn nonce_works(
    index: u64,
    timestamp: u128,
    data: Seq<char>,
    previous_hash: Seq<char>,
    difficulty: nat,
    nonce: u64,
) -> bool {
    meets(block_digest(index, timestamp, data, previous_hash, nonce), difficulty)
}

/// `nonce` works and no smaller nonce does.
pub open spec fn first_working_nonce(
    index: u64,
    timestamp: u128,
    data: Seq<char>,
    previous_hash: Seq<char>,
    difficulty: nat,
    nonce: u64,
) -> bool {
    &&& nonce_works(index, timestamp, data, previous_hash, difficulty, nonce)
    &&& forall|m: u64|
        m < nonce ==> !nonce_works(index, timestamp, data, previous_hash, difficulty, m)
}

/// No nonce below `bound` works.
pub open spec fn no_working_nonce(
    index: u64,
    timestamp: u128,
    data: Seq<char>,
    previous_hash: Seq<char>,
    difficulty: nat,
    bound: nat,
) -> bool {
    forall|m: u64|
        m < bound ==> !nonce_works(index, timestamp, data, previous_hash, difficulty, m)
}

/// Tells whether `hash` begins with at least `difficulty` `'0'` characters.
pub fn meets_difficulty(hash: &str, difficulty: usize) -> (r: bool)
    ensures
        r == meets(hash@, difficulty as nat),
{
    if difficulty > hash.unicode_len() {
        return false;
    }
    let mut i: usize = 0;
    while i < difficulty
        invariant
            difficulty <= hash@.len(),
            i <= difficulty,
            forall|j: int| 0 <= j < i ==> hash@[j] == '0',
        decreases difficulty - i,
    {
        if hash.get_char(i) != '0' {
            return false;
        }
        i = i + 1;
    }
    true
}

/// Searches nonces upward from zero for the first whose digest meets the
/// difficulty, trying at most `attempts(cap)` of them. Returns that nonce with
/// its digest, or `ExhaustedSearchSpace` when none of the tried nonces works.
pub fn mine_block(
    index: u64,
    timestamp: u128,
    data: &str,
    previous_hash: &str,
    difficulty: usize,
    cap: Option<u64>,
) -> (r: Result<(u64, String), ChainError>)
    ensures
        match r {
            Ok((nonce, hash)) => {
                &&& nonce < attempts(cap)
                &&& hash@ == block_digest(index, timestamp, data@, previous_hash@, nonce)
                &&& first_working_nonce(
                    index,
                    timestamp,
                    data@,
                    previous_hash@,
                    difficulty as nat,
                    nonce,
                )
            },
            Err(e) => {
                &&& e == ChainError::ExhaustedSearchSpace
                &&& no_working_nonce(
                    index,
                    timestamp,
                    data@,
                    previous_hash@,
                    difficulty as nat,
                    attempts(cap),
                )
            },
        },
{
    let mut nonce: u64 = 0;
    loop
        invariant
            nonce <= attempts(cap),
            forall|m: u64|
                m < nonce ==> !nonce_works(
                    index,
                    timestamp,
                    data@,
                    previous_hash@,
                    difficulty as nat,
                    m,
                ),
        decreases u64::MAX - nonce,
    {
        match cap {
            Some(n) => {
                if nonce >= n {
                    return Err(ChainError::ExhaustedSearchSpace);
                }
            },
            None => {},
        }
        let hash = calculate_hash(index, timestamp, data, previous_hash, nonce);
        if meets_difficulty(hash.as_str(), difficulty) {
            return Ok((nonce, hash));
        }
        if nonce == u64::MAX {
            return Err(ChainError::ExhaustedSearchSpace);
        }
        nonce = nonce + 1;
    }
}

} // verus!
