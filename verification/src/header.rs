//! The block header: the one thing a block's identity is taken from.

use crate::codec::{append, encode_bytes32, encode_u128, encode_u64, le_bytes};
use crate::hash::{self, Committed, HashOf, MerkleRoot};
use vstd::prelude::*;

verus! {

/// Default time, in milliseconds, in which a block is formed.
pub const DEFAULT_BLOCK_TIME_MS: u64 = 1000;

/// Default time, in milliseconds, in which a block is to be committed.
pub const DEFAULT_COMMIT_TIME_LIMIT_MS: u64 = 2000;

/// Default estimation of the duration of consensus, in milliseconds.
pub const DEFAULT_CONSENSUS_ESTIMATION_MS: u64 = DEFAULT_BLOCK_TIME_MS + (
DEFAULT_COMMIT_TIME_LIMIT_MS / 2);

/// Descriptor of the initial peer set, carried by the header of a genesis
/// block when it is supplied from outside.
///
/// The block pipeline never looks inside the descriptor. It is held in its
/// canonical encoding, so that the bytes of the header are determined.
#[derive(Debug, Clone, PartialEq, Eq)]
pub struct Topology {
    /// The canonical encoding of the descriptor.
    pub encoded: Vec<u8>,
}

/// Header of a block. The hash of a block is taken from the encoding of its
/// header and from nothing else.
#[derive(Debug, Clone, PartialEq, Eq)]
pub struct BlockHeader {
    /// Unix time, in milliseconds, at which the producer formed the block.
    pub timestamp: u128,
    /// Estimation of the duration of consensus, in milliseconds.
    pub consensus_estimation: u64,
    /// Number of blocks in the chain up to and including this one. The first
    /// block has height 1.
    pub height: u64,
    /// Hash of the previous block in the chain; all zero for the first block.
    pub previous_block_hash: HashOf<Committed>,
    /// Root of the Merkle tree of the hashes of the valid transactions; all
    /// zero when there is none.
    pub transactions_hash: HashOf<MerkleRoot>,
    /// Root of the Merkle tree of the hashes of the rejected transactions;
    /// all zero when there is none.
    pub rejected_transactions_hash: HashOf<MerkleRoot>,
    /// The initial peer set, where the block is the first one and the set was
    /// supplied.
    pub genesis_topology: Option<Topology>,
}

impl BlockHeader {
    /// Whether this is the header of a genesis block.
    pub open spec fn spec_is_genesis(&self) -> bool {
        self.height == 1
    }

    /// Whether height and previous-block hash agree on this being the first
    /// block: the height is 1 exactly when the previous-block hash is zero.
    pub open spec fn genesis_consistent(&self) -> bool {
        self.height == 1 <==> self.previous_block_hash.hash == hash::Hash::zero()
    }

    /// The encoding of the optional topology: one byte that says whether it
    /// is there, then the descriptor.
    pub open spec fn topology_encoding(&self) -> Seq<u8> {
        match self.genesis_topology {
            None => seq![0u8],
            Some(topology) => seq![1u8] + topology.encoded@,
        }
    }

    /// The canonical byte encoding of the header: its fields in the order of
    /// their declaration, integers little-endian and of fixed width, hashes
    /// as their 32 bytes.
    pub open spec fn encoding(&self) -> Seq<u8> {
        le_bytes(self.timestamp as nat, 16) + le_bytes(self.consensus_estimation as nat, 8)
            + le_bytes(self.height as nat, 8) + self.previous_block_hash.hash@
            + self.transactions_hash.hash@ + self.rejected_transactions_hash.hash@
            + self.topology_encoding()
    }

    /// The header with these two roots, and all else as it is.
    pub open spec fn spec_with_roots(
        self,
        transactions_hash: HashOf<MerkleRoot>,
        rejected_transactions_hash: HashOf<MerkleRoot>,
    ) -> BlockHeader {
        BlockHeader {
            timestamp: self.timestamp,
            consensus_estimation: self.consensus_estimation,
            height: self.height,
            previous_block_hash: self.previous_block_hash,
            transactions_hash,
            rejected_transactions_hash,
            genesis_topology: self.genesis_topology,
        }
    }

    /// Sets the roots of the valid and of the rejected transactions, and
    /// leaves the other fields as they are.
    pub fn with_roots(
        self,
        transactions_hash: HashOf<MerkleRoot>,
        rejected_transactions_hash: HashOf<MerkleRoot>,
    ) -> (header: BlockHeader)
        ensures
            header == self.spec_with_roots(transactions_hash, rejected_transactions_hash),
    {
        BlockHeader {
            timestamp: self.timestamp,
            consensus_estimation: self.consensus_estimation,
            height: self.height,
            previous_block_hash: self.previous_block_hash,
            transactions_hash,
            rejected_transactions_hash,
            genesis_topology: self.genesis_topology,
        }
    }

    /// Checks if it's a header of a genesis block.
    #[inline]
    pub fn is_genesis(&self) -> (genesis: bool)
        ensures
            genesis == self.spec_is_genesis(),
    {
        self.height == 1
    }

    /// Encodes the header into the bytes that its hash is taken from.
    pub fn encode(&self) -> (bytes: Vec<u8>)
        ensures
            bytes@ == self.encoding(),
    {
        let mut bytes = encode_u128(self.timestamp);
        let consensus_estimation = encode_u64(self.consensus_estimation);
        append(&mut bytes, &consensus_estimation);
        let height = encode_u64(self.height);
        append(&mut bytes, &height);
        let previous = encode_bytes32(self.previous_block_hash.hash.as_bytes());
        append(&mut bytes, &previous);
        let transactions = encode_bytes32(self.transactions_hash.hash.as_bytes());
        append(&mut bytes, &transactions);
        let rejected = encode_bytes32(self.rejected_transactions_hash.hash.as_bytes());
        append(&mut bytes, &rejected);
        match &self.genesis_topology {
            None => {
                bytes.push(0u8);
                assert(bytes@ == self.encoding());
            },
            Some(topology) => {
                bytes.push(1u8);
                append(&mut bytes, &topology.encoded);
                assert(bytes@ == self.encoding());
            },
        }
        bytes
    }
}

} // verus!
