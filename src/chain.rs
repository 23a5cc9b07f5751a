//! The ledger: an append-only sequence of blocks, each linked to the one
//! before it, and the check that detects tampering.
use vstd::prelude::*;
use vstd::string::*;
use crate::block::{Block, BlockModel};
use crate::clock::current_timestamp;
use crate::error::ChainError;
use crate::mining::{attempts, meets, no_working_nonce};

verus! {

/// The data of the first block of every chain.
pub open spec fn genesis_data() -> Seq<char> {
    "Genesis Block"@
}

/// The predecessor link of the first block, which has no predecessor.
pub open spec fn genesis_link() -> Seq<char> {
    "0"@
}

/// What the integrity check accepts: each block after the first names its
/// predecessor's hash and carries the digest of its own fields. The first
/// block is trusted as it stands.
pub open spec fn chain_valid(blocks: Seq<BlockModel>) -> bool {
    forall|i: int|
        1 <= i < blocks.len() ==> {
            &&& #[trigger] blocks[i].previous_hash == blocks[i - 1].hash
            &&& blocks[i].hash_matches()
        }
}

/// A chain as mathematical values: its blocks in order and the difficulty
/// that it mines under.
pub struct ChainModel {
    pub blocks: Seq<BlockModel>,
    pub difficulty: nat,
}

impl ChainModel {
    /// What holds of every chain made by `new` and grown by `add_block`: a
    /// genesis block with index zero, the fixed data and the fixed link; each
    /// block at the index of its position, linked to its predecessor, with a
    /// hash that is its digest and meets the difficulty.
    pub open spec fn well_formed(self) -> bool {
        &&& self.blocks.len() >= 1
        &&& self.blocks[0].data == genesis_data()
        &&& self.blocks[0].previous_hash == genesis_link()
        &&& forall|i: int|
            0 <= i < self.blocks.len() ==> {
                &&& #[trigger] self.blocks[i].index == i
                &&& self.blocks[i].hash_matches()
                &&& meets(self.blocks[i].hash, self.difficulty)
            }
        &&& forall|i: int|
            1 <= i < self.blocks.len() ==> #[trigger] self.blocks[i].previous_hash
                == self.blocks[i - 1].hash
    }
}

/// Every chain made by `new` and grown only by `add_block` passes the
/// integrity check.
pub proof fn built_chain_is_valid(c: ChainModel)
    requires
        c.well_formed(),
    ensures
        chain_valid(c.blocks),
{
}

/// Every block of a chain made by `new` and grown only by `add_block` has a
/// hash that begins with at least `difficulty` `'0'` characters.
pub proof fn built_chain_meets_difficulty(c: ChainModel)
    requires
        c.well_formed(),
    ensures
        forall|i: int| 0 <= i < c.blocks.len() ==> meets(#[trigger] c.blocks[i].hash, c.difficulty),
{
    assert forall|i: int| 0 <= i < c.blocks.len() implies meets(
        #[trigger] c.blocks[i].hash,
        c.difficulty,
    ) by {
        assert(c.blocks[i].index == i);
    }
}

/// The genesis block of a chain made by `new` and grown only by `add_block`
/// has index zero and the link `"0"`.
pub proof fn genesis_is_fixed(c: ChainModel)
    requires
        c.well_formed(),
    ensures
        c.blocks[0].index == 0,
        c.blocks[0].previous_hash == "0"@,
{
    assert(c.blocks[0].index == 0);
}

/// In a chain made by `new` and grown only by `add_block`, each block after
/// the first has the next index after its predecessor's and names its
/// predecessor's hash.
pub proof fn consecutive_blocks_are_linked(c: ChainModel)
    requires
        c.well_formed(),
    ensures
        forall|i: int|
            1 <= i < c.blocks.len() ==> {
                &&& #[trigger] c.blocks[i].index == c.blocks[i - 1].index + 1
                &&& c.blocks[i].previous_hash == c.blocks[i - 1].hash
            },
{
    assert forall|i: int| 1 <= i < c.blocks.len() implies {
        &&& #[trigger] c.blocks[i].index == c.blocks[i - 1].index + 1
        &&& c.blocks[i].previous_hash == c.blocks[i - 1].hash
    } by {
        assert(c.blocks[i].index == i);
        assert(c.blocks[i - 1].index == i - 1);
    }
}

/// Altering the fields of a block after the first in a chain made by `new`
/// and grown only by `add_block`, while keeping its stored hash, makes the
/// integrity check fail. Left out are the alterations that keep its link and
/// whose fields happen to have the same digest as before (the fields are
/// written without separators, so some distinct fields share a text, and
/// digests of distinct texts may collide). The genesis block is not covered:
/// the check trusts it as it stands.
pub proof fn altered_block_is_detected(c: ChainModel, i: int, altered: BlockModel)
    requires
        c.well_formed(),
        1 <= i < c.blocks.len(),
        altered.hash == c.blocks[i].hash,
        altered.previous_hash != c.blocks[i].previous_hash || altered.recomputed_hash()
            != c.blocks[i].recomputed_hash(),
    ensures
        !chain_valid(c.blocks.update(i, altered)),
{
    let t = c.blocks.update(i, altered);
    assert(c.blocks[i].index == i);
    assert(c.blocks[i].hash_matches());
    assert(t[i] == altered);
    assert(t[i - 1] == c.blocks[i - 1]);
    if altered.previous_hash != c.blocks[i].previous_hash {
        assert(!(t[i].previous_hash == t[i - 1].hash));
    } else {
        assert(!t[i].hash_matches());
    }
}

/// The ledger. Blocks are added only at the tail, by mining.
pub struct Blockchain {
    chain: Vec<Block>,
    difficulty: usize,
}

impl View for Blockchain {
    type V = ChainModel;

    closed spec fn view(&self) -> ChainModel {
        ChainModel {
            blocks: self.chain@.map_values(|b: Block| b@),
            difficulty: self.difficulty as nat,
        }
    }
}

impl Blockchain {
    /// Starts a chain whose genesis block is mined at the given timestamp.
    pub fn new_at(difficulty: usize, timestamp: u128) -> (r: Result<Blockchain, ChainError>)
        ensures
            match r {
                Ok(c) => {
                    &&& c@.well_formed()
                    &&& c@.difficulty == difficulty
                    &&& c@.blocks.len() == 1
                    &&& c@.blocks[0].mined_from(
                        0,
                        timestamp,
                        genesis_data(),
                        genesis_link(),
                        difficulty as nat,
                    )
                },
                Err(e) => {
                    &&& e == ChainError::ExhaustedSearchSpace
                    &&& no_working_nonce(
                        0,
                        timestamp,
                        genesis_data(),
                        genesis_link(),
                        difficulty as nat,
                        attempts(None),
                    )
                },
            },
    {
        let data = String::from_str("Genesis Block");
        let link = String::from_str("0");
        match Block::mine_at(0, timestamp, data, link, difficulty, None) {
            Ok(genesis) => {
                let mut chain: Vec<Block> = Vec::new();
                chain.push(genesis);
                let c = Blockchain { chain, difficulty };
                assert(c@.blocks =~= seq![genesis@]);
                Ok(c)
            },
            Err(e) => Err(e),
        }
    }

    /// Starts a chain whose genesis block is stamped with the current time.
    pub fn new(difficulty: usize) -> (r: Result<Blockchain, ChainError>)
        ensures
            match r {
                Ok(c) => {
                    &&& c@.well_formed()
                    &&& c@.difficulty == difficulty
                    &&& c@.blocks.len() == 1
                    &&& c@.blocks[0].mined_from(
                        0,
                        c@.blocks[0].timestamp,
                        genesis_data(),
                        genesis_link(),
                        difficulty as nat,
                    )
                },
                Err(e) => e == ChainError::ClockUnavailable || (e
                    == ChainError::ExhaustedSearchSpace && exists|t: u128|
                    no_working_nonce(
                        0,
                        t,
                        genesis_data(),
                        genesis_link(),
                        difficulty as nat,
                        attempts(None),
                    )),
            },
    {
        let timestamp = match current_timestamp() {
            Ok(t) => t,
            Err(e) => {
                return Err(e);
            },
        };
        Blockchain::new_at(difficulty, timestamp)
    }

    /// The number of blocks.
    pub fn len(&self) -> (r: usize)
        ensures
            r == self@.blocks.len(),
    {
        self.chain.len()
    }

    /// The difficulty that new blocks are mined under.
    pub fn difficulty(&self) -> (r: usize)
        ensures
            r == self@.difficulty,
    {
        self.difficulty
    }

    /// The block at position `i`.
    pub fn block(&self, i: usize) -> (r: &Block)
        requires
            i < self@.blocks.len(),
        ensures
            r@ == self@.blocks[i as int],
    {
        &self.chain[i]
    }

    /// Mines a block holding `data` at the given timestamp, linked to the
    /// current tail, and appends it. Returns a copy of the new block.
    pub fn add_block_at(&mut self, data: String, timestamp: u128) -> (r: Result<Block, ChainError>)
        requires
            old(self)@.blocks.len() > 0 ==> old(self)@.blocks.last().index < u64::MAX,
        ensures
            final(self)@.difficulty == old(self)@.difficulty,
            old(self)@.blocks.len() == 0 ==> r == Err::<Block, ChainError>(ChainError::EmptyChain)
                && final(self)@ == old(self)@,
            old(self)@.blocks.len() > 0 ==> match r {
                Ok(b) => {
                    let tail = old(self)@.blocks.last();
                    &&& b@.mined_from(
                        (tail.index + 1) as u64,
                        timestamp,
                        data@,
                        tail.hash,
                        old(self)@.difficulty,
                    )
                    &&& final(self)@.blocks == old(self)@.blocks.push(b@)
                },
                Err(e) => {
                    let tail = old(self)@.blocks.last();
                    &&& e == ChainError::ExhaustedSearchSpace
                    &&& no_working_nonce(
                        (tail.index + 1) as u64,
                        timestamp,
                        data@,
                        tail.hash,
                        old(self)@.difficulty,
                        attempts(None),
                    )
                    &&& final(self)@ == old(self)@
                },
            },
            old(self)@.well_formed() ==> final(self)@.well_formed(),
    {
        let n = self.chain.len();
        if n == 0 {
            return Err(ChainError::EmptyChain);
        }
        let tail = &self.chain[n - 1];
        let index = tail.index() + 1;
        let link = tail.hash().to_owned();
        match Block::mine_at(index, timestamp, data, link, self.difficulty, None) {
            Ok(b) => {
                let copy = b.clone();
                let ghost before = self@;
                self.chain.push(b);
                assert(self@.blocks =~= before.blocks.push(copy@));
                Ok(copy)
            },
            Err(e) => Err(e),
        }
    }

    /// Mines a block holding `data`, stamped with the current time, linked to
    /// the current tail, and appends it. Returns a copy of the new block.
    pub fn add_block(&mut self, data: String) -> (r: Result<Block, ChainError>)
        requires
            old(self)@.blocks.len() > 0 ==> old(self)@.blocks.last().index < u64::MAX,
        ensures
            final(self)@.difficulty == old(self)@.difficulty,
            old(self)@.blocks.len() == 0 ==> r == Err::<Block, ChainError>(ChainError::EmptyChain)
                && final(self)@ == old(self)@,
            old(self)@.blocks.len() > 0 ==> match r {
                Ok(b) => {
                    let tail = old(self)@.blocks.last();
                    &&& b@.mined_from(
                        (tail.index + 1) as u64,
                        b@.timestamp,
                        data@,
                        tail.hash,
                        old(self)@.difficulty,
                    )
                    &&& final(self)@.blocks == old(self)@.blocks.push(b@)
                },
                Err(e) => {
                    let tail = old(self)@.blocks.last();
                    &&& e == ChainError::ClockUnavailable || (e == ChainError::ExhaustedSearchSpace
                        && exists|t: u128|
                        #[trigger] no_working_nonce(
                            (tail.index + 1) as u64,
                            t,
                            data@,
                            tail.hash,
                            old(self)@.difficulty,
                            attempts(None),
                        ))
                    &&& final(self)@ == old(self)@
                },
            },
            old(self)@.well_formed() ==> final(self)@.well_formed(),
    {
        if self.chain.len() == 0 {
            return Err(ChainError::EmptyChain);
        }
        let timestamp = match current_timestamp() {
            Ok(t) => t,
            Err(e) => {
                return Err(e);
            },
        };
        self.add_block_at(data, timestamp)
    }

    /// Checks the chain: every block after the first must name its
    /// predecessor's hash and carry the digest of its own fields. Stops at the
    /// first block that does not.
    pub fn is_valid(&self) -> (r: bool)
        ensures
            r == chain_valid(self@.blocks),
    {
        let mut i: usize = 1;
        while i < self.chain.len()
            invariant
                1 <= i,
                i <= self@.blocks.len() || self@.blocks.len() == 0,
                forall|j: int|
                    1 <= j < i && j < self@.blocks.len() ==> {
                        &&& #[trigger] self@.blocks[j].previous_hash == self@.blocks[j - 1].hash
                        &&& self@.blocks[j].hash_matches()
                    },
            decreases self.chain@.len() - i,
        {
            let current = &self.chain[i];
            let previous = &self.chain[i - 1];
            assert(self@.blocks[i as int] == current@);
            assert(self@.blocks[i - 1] == previous@);
            if !current.links_to(previous) {
                return false;
            }
            if !current.hash_is_consistent() {
                return false;
            }
            i = i + 1;
        }
        true
    }

    /// Puts `block` in place of the block at position `i`, with no mining and
    /// no check. Chains grow only by `add_block`; this exists to alter a chain
    /// deliberately, to see that `is_valid` notices.
    pub fn overwrite_block(&mut self, i: usize, block: Block)
        requires
            i < old(self)@.blocks.len(),
        ensures
            final(self)@.blocks == old(self)@.blocks.update(i as int, block@),
            final(self)@.difficulty == old(self)@.difficulty,
    {
        let ghost before = self@;
        let ghost v = block@;
        self.chain.set(i, block);
        assert(self@.blocks =~= before.blocks.update(i as int, v));
    }
}

} // verus!
