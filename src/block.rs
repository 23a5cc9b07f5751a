//! A record of the ledger: its place, its time, its data, the link to its
//! predecessor, and the proof of work that seals it.
use vstd::prelude::*;
use crate::clock::current_timestamp;
use crate::digest::{block_digest, calculate_hash};
use crate::error::ChainError;
use crate::mining::{attempts, first_working_nonce, meets, mine_block, no_working_nonce};

verus! {

/// The fields of a block as mathematical values.
pub struct BlockModel {
    pub index: u64,
    pub timestamp: u128,
    pub data: Seq<char>,
    pub previous_hash: Seq<char>,
    pub hash: Seq<char>,
    pub nonce: u64,
}

impl BlockModel {
    /// The digest recomputed from the block's fields other than its hash.
    pub open spec fn recomputed_hash(self) -> Seq<char> {
        block_digest(self.index, self.timestamp, self.data, self.previous_hash, self.nonce)
    }

    /// The stored hash is the digest of the other fields.
    pub open spec fn hash_matches(self) -> bool {
        self.hash == self.recomputed_hash()
    }

    /// The block is what mining these inputs yields: its hash matches, meets
    /// the difficulty, and its nonce is the first one that does.
    pub open spec fn mined_from(
        self,
        index: u64,
        timestamp: u128,
        data: Seq<char>,
        previous_hash: Seq<char>,
        difficulty: nat,
    ) -> bool {
        &&& self.index == index
        &&& self.timestamp == timestamp
        &&& self.data == data
        &&& self.previous_hash == previous_hash
        &&& self.hash_matches()
        &&& meets(self.hash, difficulty)
        &&& first_working_nonce(index, timestamp, data, previous_hash, difficulty, self.nonce)
    }
}

/// A record of the ledger. Its fields are read through accessors only.
pub struct Block {
    index: u64,
    timestamp: u128,
    data: String,
    previous_hash: String,
    hash: String,
    nonce: u64,
}

impl View for Block {
    type V = BlockModel;

    closed spec fn view(&self) -> BlockModel {
        BlockModel {
            index: self.index,
            timestamp: self.timestamp,
            data: self.data@,
            previous_hash: self.previous_hash@,
            hash: self.hash@,
            nonce: self.nonce,
        }
    }
}

impl Clone for Block {
    fn clone(&self) -> (r: Self)
        ensures
            r@ == self@,
    {
        Block {
            index: self.index,
            timestamp: self.timestamp,
            data: self.data.clone(),
            previous_hash: self.previous_hash.clone(),
            hash: self.hash.clone(),
            nonce: self.nonce,
        }
    }
}

impl Block {
    /// Assembles a block from given fields, with no mining and no check. This
    /// is how a block read from elsewhere, or a deliberately altered one, is
    /// made.
    pub fn from_parts(
        index: u64,
        timestamp: u128,
        data: String,
        previous_hash: String,
        hash: String,
        nonce: u64,
    ) -> (r: Block)
        ensures
            r@ == (BlockModel {
                index,
                timestamp,
                data: data@,
                previous_hash: previous_hash@,
                hash: hash@,
                nonce,
            }),
    {
        Block { index, timestamp, data, previous_hash, hash, nonce }
    }

    /// Mines a block for the given fields and timestamp, trying at most
    /// `attempts(cap)` nonces.
    pub fn mine_at(
        index: u64,
        timestamp: u128,
        data: String,
        previous_hash: String,
        difficulty: usize,
        cap: Option<u64>,
    ) -> (r: Result<Block, ChainError>)
        ensures
            match r {
                Ok(b) => {
                    &&& b@.mined_from(index, timestamp, data@, previous_hash@, difficulty as nat)
                    &&& b@.nonce < attempts(cap)
                },
                Err(e) => {
                    &&& e == ChainError::ExhaustedSearchSpace
                    &&& no_working_nonce(
                        index,
                        timestamp,
                        data@,
                        previous_hash@,
                        difficulty as nat,
                        attempts(cap),
                    )
                },
            },
    {
        match mine_block(index, timestamp, data.as_str(), previous_hash.as_str(), difficulty, cap) {
            Ok((nonce, hash)) => Ok(Block { index, timestamp, data, previous_hash, hash, nonce }),
            Err(e) => Err(e),
        }
    }

    /// Mines a block for the given fields, stamped with the current time and
    /// with no cap on the nonces tried.
    pub fn new(index: u64, data: String, previous_hash: String, difficulty: usize) -> (r: Result<
        Block,
        ChainError,
    >)
        ensures
            match r {
                Ok(b) => b@.mined_from(index, b@.timestamp, data@, previous_hash@, difficulty as nat),
                Err(e) => e == ChainError::ClockUnavailable || (e
                    == ChainError::ExhaustedSearchSpace && exists|t: u128|
                    no_working_nonce(
                        index,
                        t,
                        data@,
                        previous_hash@,
                        difficulty as nat,
                        attempts(None),
                    )),
            },
    {
        let timestamp = match current_timestamp() {
            Ok(t) => t,
            Err(e) => {
                return Err(e);
            },
        };
        Block::mine_at(index, timestamp, data, previous_hash, difficulty, None)
    }

    /// Tells whether this block names `previous`'s hash as its predecessor.
    pub fn links_to(&self, previous: &Block) -> (r: bool)
        ensures
            r == (self@.previous_hash == previous@.hash),
    {
        self.previous_hash == previous.hash
    }

    /// Tells whether the stored hash is the digest of the other fields.
    pub fn hash_is_consistent(&self) -> (r: bool)
        ensures
            r == self@.hash_matches(),
    {
        let recalculated = calculate_hash(
            self.index,
            self.timestamp,
            self.data.as_str(),
            self.previous_hash.as_str(),
            self.nonce,
        );
        recalculated == self.hash
    }

    /// The block's position in its chain.
    pub fn index(&self) -> (r: u64)
        ensures
            r == self@.index,
    {
        self.index
    }

    /// When the block was mined, in milliseconds since the Unix epoch.
    pub fn timestamp(&self) -> (r: u128)
        ensures
            r == self@.timestamp,
    {
        self.timestamp
    }

    /// The data that the block records.
    pub fn data(&self) -> (r: &str)
        ensures
            r@ == self@.data,
    {
        self.data.as_str()
    }

    /// The hash of the block before it, or "0" for the first block.
    pub fn previous_hash(&self) -> (r: &str)
        ensures
            r@ == self@.previous_hash,
    {
        self.previous_hash.as_str()
    }

    /// The block's stored digest.
    pub fn hash(&self) -> (r: &str)
        ensures
            r@ == self@.hash,
    {
        self.hash.as_str()
    }

    /// The nonce that its proof of work found.
    pub fn nonce(&self) -> (r: u64)
        ensures
            r == self@.nonce,
    {
        self.nonce
    }
}

} // verus!
