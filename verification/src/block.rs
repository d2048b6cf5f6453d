//! The states that a block goes through, and the transitions between them.
//!
//! A block starts as a [`PendingBlock`]. Chained to the blockchain it is a
//! [`ChainedBlock`], validated against the world state a [`ValidBlock`],
//! signed a [`ValidSignedBlock`], and committed a [`CommittedBlock`]. Each
//! transition consumes the state it starts from, so a block is in one state
//! at a time.

use crate::collaborator::{
    can_digest, can_root, digests, hash_of_bytes, merkle_root, roots, roots_is_function,
};
use crate::events::{Event, PipelineEntityKind, PipelineEvent, PipelineStatus};
use crate::hash::{
    self, Chained, Committed, EmptyChainHash, HashOf, MerkleRoot, Signed, Valid,
};
use crate::header::{BlockHeader, Topology, DEFAULT_CONSENSUS_ESTIMATION_MS};
use crate::signature::{
    picked, with_signature, KeyPair, SignError, Signature, SignatureOf, SignatureView,
    SignaturesOf,
};
use crate::transaction::{
    hashes, partition, rejected_hashes, rejected_under, signed_of_rejected, signed_of_valid,
    valid_hashes, valid_under, AcceptedTransaction, RejectedTransaction, TransactionValidator,
    ValidTransaction, Verdict,
};
use crate::wsv::WorldStateView;
use vstd::prelude::*;

verus! {

/// A block could not be signed.
#[derive(Debug, Clone, PartialEq, Eq)]
pub struct SignatureCreationError {
    /// Hash of the block that was to be signed.
    pub block_hash: hash::Hash,
    /// What the signature collaborator reported.
    pub cause: SignError,
}

/// Transaction data is permanently recorded in blocks. This is the first
/// stage of the life cycle of a block: transactions and the time at which
/// the block was formed, and no header yet.
#[derive(Debug, Clone, PartialEq, Eq)]
pub struct PendingBlock {
    /// Unix time (in milliseconds) of block forming by a peer.
    pub timestamp: u128,
    /// Transactions that this peer has accepted.
    pub transactions: Vec<AcceptedTransaction>,
    /// Event recommendations.
    pub event_recommendations: Vec<Event>,
}

impl PendingBlock {
    /// The header that a block formed at `timestamp` gets when it is chained
    /// at `height`, after the block with hash `previous_block_hash`.
    pub open spec fn chained_header(
        timestamp: u128,
        height: u64,
        previous_block_hash: HashOf<Committed>,
        genesis_topology: Option<Topology>,
    ) -> BlockHeader {
        BlockHeader {
            timestamp,
            consensus_estimation: DEFAULT_CONSENSUS_ESTIMATION_MS,
            height,
            previous_block_hash,
            transactions_hash: HashOf::zero(),
            rejected_transactions_hash: HashOf::zero(),
            genesis_topology,
        }
    }

    /// The block chained after a blockchain of `height` blocks whose latest
    /// block has the hash `previous_block_hash`.
    pub open spec fn spec_chain(self, height: u64, previous_block_hash: HashOf<Committed>) -> ChainedBlock {
        ChainedBlock {
            header: Self::chained_header(
                self.timestamp,
                (height + 1) as u64,
                previous_block_hash,
                None,
            ),
            transactions: self.transactions,
            event_recommendations: self.event_recommendations,
        }
    }

    /// The block chained as the first block of a blockchain.
    pub open spec fn spec_chain_first(self, genesis_topology: Option<Topology>) -> ChainedBlock {
        ChainedBlock {
            header: Self::chained_header(self.timestamp, 1, HashOf::zero(), genesis_topology),
            transactions: self.transactions,
            event_recommendations: self.event_recommendations,
        }
    }

    /// Create a new `PendingBlock` from transactions, formed at `timestamp`
    /// (Unix time in milliseconds).
    #[inline]
    pub fn new(
        timestamp: u128,
        transactions: Vec<AcceptedTransaction>,
        event_recommendations: Vec<Event>,
    ) -> (pending: PendingBlock)
        ensures
            pending == (PendingBlock { timestamp, transactions, event_recommendations }),
    {
        PendingBlock { timestamp, transactions, event_recommendations }
    }

    /// Chain block with the existing blockchain, which holds `height` blocks
    /// and whose latest block has the hash `previous_block_hash`.
    pub fn chain(self, height: u64, previous_block_hash: HashOf<Committed>) -> (chained:
        ChainedBlock)
        requires
            height < u64::MAX,
        ensures
            chained == self.spec_chain(height, previous_block_hash),
    {
        ChainedBlock {
            transactions: self.transactions,
            event_recommendations: self.event_recommendations,
            header: BlockHeader {
                timestamp: self.timestamp,
                consensus_estimation: DEFAULT_CONSENSUS_ESTIMATION_MS,
                height: height + 1,
                previous_block_hash,
                transactions_hash: hash::Hash::zeroed().typed(),
                rejected_transactions_hash: hash::Hash::zeroed().typed(),
                genesis_topology: None,
            },
        }
    }

    /// Create a new blockchain with current block as a first block.
    pub fn chain_first_with_genesis_topology(self, genesis_topology: Topology) -> (chained:
        ChainedBlock)
        ensures
            chained == self.spec_chain_first(Some(genesis_topology)),
    {
        ChainedBlock {
            transactions: self.transactions,
            event_recommendations: self.event_recommendations,
            header: BlockHeader {
                timestamp: self.timestamp,
                consensus_estimation: DEFAULT_CONSENSUS_ESTIMATION_MS,
                height: 1,
                previous_block_hash: HashOf::from(EmptyChainHash::default()),
                transactions_hash: hash::Hash::zeroed().typed(),
                rejected_transactions_hash: hash::Hash::zeroed().typed(),
                genesis_topology: Some(genesis_topology),
            },
        }
    }

    /// Create a new blockchain with current block as a first block.
    pub fn chain_first(self) -> (chained: ChainedBlock)
        ensures
            chained == self.spec_chain_first(None),
    {
        ChainedBlock {
            transactions: self.transactions,
            event_recommendations: self.event_recommendations,
            header: BlockHeader {
                timestamp: self.timestamp,
                consensus_estimation: DEFAULT_CONSENSUS_ESTIMATION_MS,
                height: 1,
                previous_block_hash: HashOf::from(EmptyChainHash::default()),
                transactions_hash: hash::Hash::zeroed().typed(),
                rejected_transactions_hash: hash::Hash::zeroed().typed(),
                genesis_topology: None,
            },
        }
    }
}

/// A pending block in its versioned envelope. There is one version.
#[derive(Debug, Clone, PartialEq, Eq)]
pub enum VersionedPendingBlock {
    /// The first version.
    V1(PendingBlock),
}

impl VersionedPendingBlock {
    /// The block in the envelope.
    pub open spec fn spec_v1(&self) -> PendingBlock {
        match *self {
            VersionedPendingBlock::V1(block) => block,
        }
    }

    /// Converts from `&VersionedPendingBlock` to V1 reference
    #[inline]
    pub fn as_v1(&self) -> (block: &PendingBlock)
        ensures
            *block == self.spec_v1(),
    {
        match self {
            Self::V1(v1) => v1,
        }
    }

    /// Converts from `&mut VersionedPendingBlock` to V1 mutable reference
    #[inline]
    pub fn as_mut_v1(&mut self) -> (block: &mut PendingBlock)
        ensures
            *block == old(self).spec_v1(),
            *final(self) == VersionedPendingBlock::V1(*final(block)),
    {
        match self {
            Self::V1(v1) => v1,
        }
    }

    /// Performs the conversion from `VersionedPendingBlock` to V1
    #[inline]
    pub fn into_v1(self) -> (block: PendingBlock)
        ensures
            block == self.spec_v1(),
    {
        match self {
            Self::V1(v1) => v1,
        }
    }
}

impl From<PendingBlock> for VersionedPendingBlock {
    #[inline]
    fn from(block: PendingBlock) -> (versioned: Self) {
        VersionedPendingBlock::V1(block)
    }
}

impl vstd::std_specs::convert::FromSpecImpl<PendingBlock> for VersionedPendingBlock {
    open spec fn obeys_from_spec() -> bool {
        true
    }

    open spec fn from_spec(block: PendingBlock) -> Self {
        VersionedPendingBlock::V1(block)
    }
}

/// When `PendingBlock` chained with a blockchain it becomes `ChainedBlock`.
#[derive(Debug, Clone, PartialEq, Eq)]
pub struct ChainedBlock {
    /// Block header
    pub header: BlockHeader,
    /// Transactions that this peer has accepted.
    pub transactions: Vec<AcceptedTransaction>,
    /// Event recommendations.
    pub event_recommendations: Vec<Event>,
}

impl ChainedBlock {
    /// Whether the validator can be asked about each transaction of the
    /// block.
    pub open spec fn can_validate<V: Fn(&AcceptedTransaction, bool, &WorldStateView) -> Verdict>(
        &self,
        validator: TransactionValidator<V>,
        wsv: WorldStateView,
    ) -> bool {
        forall|i: int|
            0 <= i < self.transactions@.len() ==> validator.accepts(
                #[trigger] self.transactions@[i],
                self.header.spec_is_genesis(),
                wsv,
            )
    }

    /// Whether `verdicts` holds, for each transaction of the block in turn,
    /// an answer of the validator about it.
    pub open spec fn judged_as<V: Fn(&AcceptedTransaction, bool, &WorldStateView) -> Verdict>(
        &self,
        validator: TransactionValidator<V>,
        wsv: WorldStateView,
        verdicts: Seq<Verdict>,
    ) -> bool {
        &&& verdicts.len() == self.transactions@.len()
        &&& forall|i: int|
            0 <= i < verdicts.len() ==> validator.judges(
                self.transactions@[i],
                self.header.spec_is_genesis(),
                wsv,
                #[trigger] verdicts[i],
            )
    }

    /// Whether `valid` is what the block becomes under `verdicts`: its
    /// transactions parted by their verdicts, each part in the order of the
    /// block, the two roots in the header bound to the two parts by
    /// `merkle`, and all else as it was.
    pub open spec fn becomes<M: Fn(&[hash::Hash]) -> hash::Hash>(
        &self,
        merkle: M,
        verdicts: Seq<Verdict>,
        valid: ValidBlock,
    ) -> bool {
        &&& valid.transactions@ == valid_under(self.transactions@, verdicts)
        &&& valid.rejected_transactions@ == rejected_under(self.transactions@, verdicts)
        &&& valid.event_recommendations == self.event_recommendations
        &&& valid.roots_bound(merkle)
        &&& valid.header == self.header.spec_with_roots(
            valid.header.transactions_hash,
            valid.header.rejected_transactions_hash,
        )
    }

    /// Validate block transactions against the current state of the world.
    ///
    /// The validator is asked once about each transaction, in the order of
    /// the block, with whether the block is the genesis block. A transaction
    /// that the validator rejects does not fail the block: it is kept among
    /// the rejected ones, with the reason. The two roots in the header are
    /// then taken over the valid and over the rejected transactions.
    pub fn validate<
        V: Fn(&AcceptedTransaction, bool, &WorldStateView) -> Verdict,
        M: Fn(&[hash::Hash]) -> hash::Hash,
    >(self, transaction_validator: &TransactionValidator<V>, merkle: &M, wsv: &WorldStateView) -> (valid:
        ValidBlock)
        requires
            self.can_validate(*transaction_validator, *wsv),
            forall|leaves: Seq<hash::Hash>| can_root(*merkle, leaves),
        ensures
            exists|verdicts: Seq<Verdict>| #[trigger]
                self.judged_as(*transaction_validator, *wsv, verdicts) && self.becomes(
                    *merkle,
                    verdicts,
                    valid,
                ),
            valid.roots_bound(*merkle),
            valid.header.genesis_consistent() == self.header.genesis_consistent(),
    {
        let is_genesis = self.header.is_genesis();
        let mut verdicts: Vec<Verdict> = Vec::new();
        let mut i: usize = 0;
        while i < self.transactions.len()
            invariant
                i <= self.transactions.len(),
                verdicts@.len() == i,
                is_genesis == self.header.spec_is_genesis(),
                self.can_validate(*transaction_validator, *wsv),
                forall|j: int|
                    0 <= j < i ==> transaction_validator.judges(
                        self.transactions@[j],
                        is_genesis,
                        *wsv,
                        #[trigger] verdicts@[j],
                    ),
            decreases self.transactions.len() - i,
        {
            let verdict = (transaction_validator.check)(&self.transactions[i], is_genesis, wsv);
            verdicts.push(verdict);
            i += 1;
        }
        assert(self.judged_as(*transaction_validator, *wsv, verdicts@));
        let (transactions, rejected_transactions) = partition(self.transactions, &verdicts);
        let valid_leaves = valid_hashes(&transactions);
        let transactions_hash = merkle_root(&valid_leaves, merkle).typed();
        let rejected_leaves = rejected_hashes(&rejected_transactions);
        let rejected_transactions_hash = merkle_root(&rejected_leaves, merkle).typed();
        let valid = ValidBlock {
            header: self.header.with_roots(transactions_hash, rejected_transactions_hash),
            rejected_transactions,
            transactions,
            event_recommendations: self.event_recommendations,
        };
        assert(self.becomes(*merkle, verdicts@, valid));
        valid
    }

    /// Validation is decided by the block and the answers of the
    /// collaborators. With a validator and a Merkle function that have one
    /// answer only to each question, two blocks that one chained block may
    /// become hold the same: the same header, events and transactions.
    pub proof fn lemma_validation_decided<
        V: Fn(&AcceptedTransaction, bool, &WorldStateView) -> Verdict,
        M: Fn(&[hash::Hash]) -> hash::Hash,
    >(
        self,
        validator: TransactionValidator<V>,
        merkle: M,
        wsv: WorldStateView,
        first_verdicts: Seq<Verdict>,
        first: ValidBlock,
        second_verdicts: Seq<Verdict>,
        second: ValidBlock,
    )
        requires
            validator.is_function(),
            roots_is_function(merkle),
            self.judged_as(validator, wsv, first_verdicts),
            self.becomes(merkle, first_verdicts, first),
            self.judged_as(validator, wsv, second_verdicts),
            self.becomes(merkle, second_verdicts, second),
        ensures
            first_verdicts == second_verdicts,
            first.header == second.header,
            first.transactions@ == second.transactions@,
            first.rejected_transactions@ == second.rejected_transactions@,
            first.event_recommendations == second.event_recommendations,
    {
        assert forall|i: int| 0 <= i < first_verdicts.len() implies first_verdicts[i]
            == second_verdicts[i] by {
            assert(validator.judges(
                self.transactions@[i],
                self.header.spec_is_genesis(),
                wsv,
                first_verdicts[i],
            ));
            assert(validator.judges(
                self.transactions@[i],
                self.header.spec_is_genesis(),
                wsv,
                second_verdicts[i],
            ));
        }
        assert(first_verdicts =~= second_verdicts);
        assert(first.header.transactions_hash.hash == second.header.transactions_hash.hash);
        assert(first.header.rejected_transactions_hash.hash
            == second.header.rejected_transactions_hash.hash);
    }

    /// Calculate the hash of the current block.
    pub fn hash<D: Fn(&[u8]) -> hash::Hash>(&self, digest: &D) -> (hash: HashOf<Chained>)
        requires
            can_digest(*digest, self.header.encoding()),
        ensures
            digests(*digest, self.header.encoding(), hash.hash),
    {
        hash_of_bytes(&self.header.encode(), digest).typed()
    }
}

/// After full validation `ChainedBlock` can transform into `ValidBlock`.
#[derive(Debug, Clone, PartialEq, Eq)]
pub struct ValidBlock {
    /// Block header
    pub header: BlockHeader,
    /// Array of rejected transactions.
    pub rejected_transactions: Vec<RejectedTransaction>,
    /// Array of all transactions in this block.
    pub transactions: Vec<ValidTransaction>,
    /// Event recommendations.
    pub event_recommendations: Vec<Event>,
}

impl ValidBlock {
    /// Whether the two roots in the header are the Merkle roots of the hashes
    /// of the valid and of the rejected transactions, each in the order of
    /// the block.
    pub open spec fn roots_bound<M: Fn(&[hash::Hash]) -> hash::Hash>(&self, merkle: M) -> bool {
        &&& roots(
            merkle,
            hashes(signed_of_valid(self.transactions@)),
            self.header.transactions_hash.hash,
        )
        &&& roots(
            merkle,
            hashes(signed_of_rejected(self.rejected_transactions@)),
            self.header.rejected_transactions_hash.hash,
        )
    }

    /// The block with these signatures under it.
    pub open spec fn signed_by(self, signatures: SignaturesOf<Signed>) -> ValidSignedBlock {
        ValidSignedBlock {
            header: self.header,
            rejected_transactions: self.rejected_transactions,
            transactions: self.transactions,
            signatures,
            event_recommendations: self.event_recommendations,
        }
    }

    /// Calculate hash of the current block.
    #[inline]
    pub fn hash<D: Fn(&[u8]) -> hash::Hash>(&self, digest: &D) -> (hash: HashOf<Valid>)
        requires
            can_digest(*digest, self.header.encoding()),
        ensures
            digests(*digest, self.header.encoding(), hash.hash),
    {
        hash_of_bytes(&self.header.encode(), digest).typed()
    }

    /// Puts a first signature under the block.
    pub fn with_signature(self, signature: SignatureOf<Signed>) -> (signed: ValidSignedBlock)
        ensures
            signed.signatures@ == seq![signature@],
            signed == self.signed_by(signed.signatures),
    {
        ValidSignedBlock {
            header: self.header,
            rejected_transactions: self.rejected_transactions,
            transactions: self.transactions,
            event_recommendations: self.event_recommendations,
            signatures: SignaturesOf::from(signature),
        }
    }

    /// Whether `signed` is what signing the block gives, where `hash` is the
    /// hash of the block: the block with the one signature of the key pair
    /// that `sign` made over `hash`, or the error of `sign`.
    pub open spec fn signs_to<S: Fn(&KeyPair, &hash::Hash) -> Result<Vec<u8>, SignError>>(
        self,
        key_pair: KeyPair,
        hash: hash::Hash,
        sign: S,
        signed: Result<ValidSignedBlock, SignatureCreationError>,
    ) -> bool {
        match signed {
            Ok(block) => exists|payload: Vec<u8>| #[trigger]
                call_ensures(sign, (&key_pair, &hash), Ok(payload)) && block.signatures@
                    == seq![SignatureView { signer: key_pair.public_key@, payload: payload@ }]
                    && block == self.signed_by(block.signatures),
            Err(error) => error.block_hash == hash && call_ensures(
                sign,
                (&key_pair, &hash),
                Err(error.cause),
            ),
        }
    }

    /// Sign this block and get `ValidSignedBlock`.
    ///
    /// The signature is taken over the hash of the header, which `digest`
    /// computes, by `sign` with `key_pair`.
    ///
    /// # Errors
    /// Fails if signature generation fails
    pub fn sign<
        D: Fn(&[u8]) -> hash::Hash,
        S: Fn(&KeyPair, &hash::Hash) -> Result<Vec<u8>, SignError>,
    >(self, key_pair: KeyPair, digest: &D, sign: &S) -> (signed: Result<
        ValidSignedBlock,
        SignatureCreationError,
    >)
        requires
            can_digest(*digest, self.header.encoding()),
            can_sign(*digest, self.header.encoding(), *sign, key_pair),
        ensures
            exists|hash: hash::Hash| #[trigger]
                digests(*digest, self.header.encoding(), hash) && self.signs_to(
                    key_pair,
                    hash,
                    *sign,
                    signed,
                ),
    {
        let hash: HashOf<Signed> = self.hash(digest).transmute();
        match SignatureOf::from_hash(key_pair, &hash, sign) {
            Ok(signature) => {
                let ghost payload = signature.signature.payload;
                let signed = Ok(self.with_signature(signature));
                assert(call_ensures(*sign, (&key_pair, &hash.hash), Ok(payload)));
                assert(self.signs_to(key_pair, hash.hash, *sign, signed));
                signed
            },
            Err(cause) => {
                let signed = Err(SignatureCreationError { block_hash: hash.hash, cause });
                assert(self.signs_to(key_pair, hash.hash, *sign, signed));
                signed
            },
        }
    }
}

/// After receiving first signature, `ValidBlock` can transform into `ValidSignedBlock`.
#[derive(Debug, Clone, PartialEq, Eq)]
pub struct ValidSignedBlock {
    /// Block header
    pub header: BlockHeader,
    /// Array of all rejected transactions in this block.
    pub rejected_transactions: Vec<RejectedTransaction>,
    /// Array of all valid transactions in this block.
    pub transactions: Vec<ValidTransaction>,
    /// Signatures of peers which approved this block.
    pub signatures: SignaturesOf<Signed>,
    /// Event recommendations.
    pub event_recommendations: Vec<Event>,
}

impl ValidSignedBlock {
    /// The block as a committed one: the same header, transactions, events
    /// and signatures.
    pub open spec fn spec_commit(self) -> CommittedBlock {
        CommittedBlock {
            header: self.header,
            rejected_transactions: self.rejected_transactions,
            transactions: self.transactions,
            event_recommendations: self.event_recommendations,
            signatures: self.signatures.spec_transmute(),
        }
    }

    /// The block with these signatures in place of its own.
    pub open spec fn resigned(self, signatures: SignaturesOf<Signed>) -> ValidSignedBlock {
        ValidSignedBlock {
            header: self.header,
            rejected_transactions: self.rejected_transactions,
            transactions: self.transactions,
            signatures,
            event_recommendations: self.event_recommendations,
        }
    }

    /// The events that say that the block and its transactions are being
    /// validated, where `block_hash` is the hash of the block: one for each
    /// valid transaction, one for each rejected transaction, each group in
    /// the order of the block, then one for the block.
    pub open spec fn spec_events(&self, block_hash: hash::Hash) -> Seq<Event> {
        hashes(signed_of_valid(self.transactions@)).map_values(
            |hash: hash::Hash| Event::of_transaction(PipelineStatus::Validating, hash),
        ) + hashes(signed_of_rejected(self.rejected_transactions@)).map_values(
            |hash: hash::Hash| Event::of_transaction(PipelineStatus::Validating, hash),
        ) + seq![Event::of_block(PipelineStatus::Validating, block_hash)]
    }

    /// Commit block to the store. Nothing is checked and nothing changes but
    /// the tag of the signatures.
    #[inline]
    pub fn commit(self) -> (committed: CommittedBlock)
        ensures
            committed == self.spec_commit(),
            committed.signatures@ == self.signatures@,
    {
        let Self { header, rejected_transactions, transactions, event_recommendations, signatures } =
            self;

        CommittedBlock {
            event_recommendations,
            header,
            rejected_transactions,
            transactions,
            signatures: signatures.transmute(),
        }
    }

    /// Calculate the hash of the current block.
    pub fn hash<D: Fn(&[u8]) -> hash::Hash>(&self, digest: &D) -> (hash: HashOf<Signed>)
        requires
            can_digest(*digest, self.header.encoding()),
        ensures
            digests(*digest, self.header.encoding(), hash.hash),
    {
        hash_of_bytes(&self.header.encode(), digest).typed()
    }

    /// Offers one more signature to the block. Where its signer has signed
    /// already, the signatures stay as they are.
    pub fn add_signature(self, signature: SignatureOf<Signed>) -> (signed: Self)
        ensures
            signed.signatures@ == with_signature(self.signatures@, signature@),
            signed == self.resigned(signed.signatures),
    {
        ValidSignedBlock {
            header: self.header,
            rejected_transactions: self.rejected_transactions,
            transactions: self.transactions,
            event_recommendations: self.event_recommendations,
            signatures: self.signatures.insert(signature),
        }
    }

    /// Whether `signed` is what signing the block once more gives, where
    /// `hash` is the hash of the block: the block with the signature of the
    /// key pair that `sign` made over `hash` offered to its signatures, or
    /// the error of `sign`.
    pub open spec fn signs_to<S: Fn(&KeyPair, &hash::Hash) -> Result<Vec<u8>, SignError>>(
        self,
        key_pair: KeyPair,
        hash: hash::Hash,
        sign: S,
        signed: Result<ValidSignedBlock, SignatureCreationError>,
    ) -> bool {
        match signed {
            Ok(block) => exists|payload: Vec<u8>| #[trigger]
                call_ensures(sign, (&key_pair, &hash), Ok(payload)) && block.signatures@
                    == with_signature(
                    self.signatures@,
                    SignatureView { signer: key_pair.public_key@, payload: payload@ },
                ) && block == self.resigned(block.signatures),
            Err(error) => error.block_hash == hash && call_ensures(
                sign,
                (&key_pair, &hash),
                Err(error.cause),
            ),
        }
    }

    /// Add additional signatures for `ValidSignedBlock`.
    ///
    /// The signature is taken over the hash of the header, which `digest`
    /// computes, by `sign` with `key_pair`. Where the holder of the key pair
    /// has signed already, the signatures stay as they are.
    ///
    /// # Errors
    /// Fails if signature generation fails
    pub fn sign<
        D: Fn(&[u8]) -> hash::Hash,
        S: Fn(&KeyPair, &hash::Hash) -> Result<Vec<u8>, SignError>,
    >(self, key_pair: KeyPair, digest: &D, sign: &S) -> (signed: Result<
        Self,
        SignatureCreationError,
    >)
        requires
            can_digest(*digest, self.header.encoding()),
            can_sign(*digest, self.header.encoding(), *sign, key_pair),
        ensures
            exists|hash: hash::Hash| #[trigger]
                digests(*digest, self.header.encoding(), hash) && self.signs_to(
                    key_pair,
                    hash,
                    *sign,
                    signed,
                ),
            signed matches Ok(block) ==> (has_signer_of(self.signatures@, key_pair)
                ==> block.signatures@ == self.signatures@),
    {
        let hash = self.hash(digest);
        match SignatureOf::from_hash(key_pair, &hash, sign) {
            Ok(signature) => {
                let ghost payload = signature.signature.payload;
                let signed = Ok(self.add_signature(signature));
                assert(call_ensures(*sign, (&key_pair, &hash.hash), Ok(payload)));
                assert(self.signs_to(key_pair, hash.hash, *sign, signed));
                signed
            },
            Err(cause) => {
                let signed = Err(SignatureCreationError { block_hash: hash.hash, cause });
                assert(self.signs_to(key_pair, hash.hash, *sign, signed));
                signed
            },
        }
    }

    /// Return the signatures that are verified with the `hash` of this block.
    ///
    /// `digest` computes the hash of the header. `verify` is asked once about
    /// each signature, with that hash, and a signature is returned exactly
    /// when `verify` answered `true` for it. Nothing changes, so this may be
    /// called again and again.
    #[inline]
    pub fn verified_signatures<
        D: Fn(&[u8]) -> hash::Hash,
        V: Fn(&Signature, &hash::Hash) -> bool,
    >(&self, digest: &D, verify: &V) -> (verified: Vec<&Signature>)
        requires
            can_digest(*digest, self.header.encoding()),
            forall|hash: HashOf<Signed>| #[trigger] self.signatures.can_verify(hash, *verify),
        ensures
            exists|hash: HashOf<Signed>, flags: Seq<bool>|
                digests(*digest, self.header.encoding(), hash.hash)
                    && #[trigger] self.signatures.verified_as(hash, *verify, flags)
                    && verified@.map_values(|signature: &Signature| signature@) == picked(
                    self.signatures@,
                    flags,
                ),
    {
        let hash = self.hash(digest);
        self.signatures.verified_by_hash(hash, verify)
    }

    /// The header of the dummy block.
    pub open spec fn dummy_header() -> BlockHeader {
        PendingBlock::chained_header(0, 1, HashOf::zero(), None)
    }

    /// Create a dummy block: the first block of a chain, formed at time 0,
    /// without transactions, signed with `key_pair`.
    ///
    /// # Errors
    /// Fails if signature generation fails
    pub fn new_dummy<
        D: Fn(&[u8]) -> hash::Hash,
        S: Fn(&KeyPair, &hash::Hash) -> Result<Vec<u8>, SignError>,
    >(key_pair: KeyPair, digest: &D, sign: &S) -> (dummy: Result<Self, SignatureCreationError>)
        requires
            can_digest(*digest, Self::dummy_header().encoding()),
            can_sign(*digest, Self::dummy_header().encoding(), *sign, key_pair),
        ensures
            match dummy {
                Ok(block) => {
                    &&& block.header == Self::dummy_header()
                    &&& block.transactions@.len() == 0
                    &&& block.rejected_transactions@.len() == 0
                    &&& block.event_recommendations@.len() == 0
                    &&& exists|hash: hash::Hash, payload: Vec<u8>|
                        digests(*digest, Self::dummy_header().encoding(), hash)
                            && #[trigger] call_ensures(*sign, (&key_pair, &hash), Ok(payload))
                            && block.signatures@ == seq![
                            SignatureView { signer: key_pair.public_key@, payload: payload@ },
                        ]
                },
                Err(error) => digests(
                    *digest,
                    Self::dummy_header().encoding(),
                    error.block_hash,
                ) && call_ensures(*sign, (&key_pair, &error.block_hash), Err(error.cause)),
            },
    {
        let block = ValidBlock {
            header: BlockHeader {
                timestamp: 0,
                consensus_estimation: DEFAULT_CONSENSUS_ESTIMATION_MS,
                height: 1,
                previous_block_hash: HashOf::from(EmptyChainHash::default()),
                transactions_hash: hash::Hash::zeroed().typed(),
                rejected_transactions_hash: hash::Hash::zeroed().typed(),
                genesis_topology: None,
            },
            rejected_transactions: Vec::new(),
            transactions: Vec::new(),
            event_recommendations: Vec::new(),
        };
        block.sign(key_pair, digest, sign)
    }

    /// The events that say that the block and its transactions are being
    /// validated, where `block_hash` is the hash of the block.
    pub fn events_for_hash(&self, block_hash: HashOf<Signed>) -> (events: Vec<Event>)
        ensures
            events@ == self.spec_events(block_hash.hash),
    {
        let mut events: Vec<Event> = Vec::new();
        let ghost valid = hashes(signed_of_valid(self.transactions@));
        let ghost rejected = hashes(signed_of_rejected(self.rejected_transactions@));
        let ghost about = |hash: hash::Hash| Event::of_transaction(PipelineStatus::Validating, hash);
        let mut i: usize = 0;
        while i < self.transactions.len()
            invariant
                i <= self.transactions.len(),
                valid == hashes(signed_of_valid(self.transactions@)),
                about == |hash: hash::Hash|
                    Event::of_transaction(PipelineStatus::Validating, hash),
                events@ == valid.take(i as int).map_values(about),
            decreases self.transactions.len() - i,
        {
            events.push(
                Event::Pipeline(
                    PipelineEvent::new(
                        PipelineEntityKind::Transaction,
                        PipelineStatus::Validating,
                        self.transactions[i].hash(),
                    ),
                ),
            );
            assert(events@ =~= valid.take(i + 1).map_values(about));
            i += 1;
        }
        assert(valid.take(valid.len() as int) == valid);
        let mut j: usize = 0;
        while j < self.rejected_transactions.len()
            invariant
                j <= self.rejected_transactions.len(),
                rejected == hashes(signed_of_rejected(self.rejected_transactions@)),
                about == |hash: hash::Hash|
                    Event::of_transaction(PipelineStatus::Validating, hash),
                events@ == valid.map_values(about) + rejected.take(j as int).map_values(about),
            decreases self.rejected_transactions.len() - j,
        {
            events.push(
                Event::Pipeline(
                    PipelineEvent::new(
                        PipelineEntityKind::Transaction,
                        PipelineStatus::Validating,
                        self.rejected_transactions[j].hash(),
                    ),
                ),
            );
            assert(events@ =~= valid.map_values(about) + rejected.take(j + 1).map_values(about));
            j += 1;
        }
        assert(rejected.take(rejected.len() as int) == rejected);
        events.push(
            Event::Pipeline(
                PipelineEvent::new(
                    PipelineEntityKind::Block,
                    PipelineStatus::Validating,
                    block_hash.hash,
                ),
            ),
        );
        assert(events@ =~= self.spec_events(block_hash.hash));
        events
    }

    /// The events that say that the block and its transactions are being
    /// validated. `digest` computes the hash of the block.
    pub fn events<D: Fn(&[u8]) -> hash::Hash>(&self, digest: &D) -> (events: Vec<Event>)
        requires
            can_digest(*digest, self.header.encoding()),
        ensures
            exists|hash: hash::Hash| #[trigger]
                digests(*digest, self.header.encoding(), hash) && events@ == self.spec_events(
                    hash,
                ),
    {
        let hash = self.hash(digest);
        self.events_for_hash(hash)
    }
}

/// Identity across states. The hash of a block is the hash of the encoding
/// of its header, and signing and committing leave the header as it is. So
/// with a hash function that gives one hash to one input, a block has the
/// same hash as a valid, as a valid signed, and as a committed block, and
/// when it is opened again.
pub proof fn lemma_hash_across_states<D: Fn(&[u8]) -> hash::Hash>(
    digest: D,
    valid: ValidBlock,
    signatures: SignaturesOf<Signed>,
    of_valid: hash::Hash,
    of_signed: hash::Hash,
    of_committed: hash::Hash,
    of_reopened: hash::Hash,
)
    requires
        crate::collaborator::is_function(digest),
        digests(digest, valid.header.encoding(), of_valid),
        digests(digest, valid.signed_by(signatures).header.encoding(), of_signed),
        digests(digest, valid.signed_by(signatures).spec_commit().header.encoding(), of_committed),
        digests(
            digest,
            valid.signed_by(signatures).spec_commit().spec_reopen().header.encoding(),
            of_reopened,
        ),
    ensures
        of_valid == of_signed,
        of_signed == of_committed,
        of_committed == of_reopened,
        valid.signed_by(signatures).spec_commit().spec_reopen() == valid.signed_by(signatures),
{
    signatures.lemma_transmute::<Committed>();
}

/// Genesis predicate. A block that is chained as the first block has height
/// 1 and the zero hash as the hash of its previous block. A block that is
/// chained after `height` blocks, where `height` is zero exactly when the
/// hash of the previous block is the zero hash, has height 1 exactly when
/// the hash of its previous block is the zero hash. Validation, signing and
/// committing keep the height and that hash.
pub proof fn lemma_genesis_predicate(
    pending: PendingBlock,
    genesis_topology: Option<Topology>,
    height: u64,
    previous_block_hash: HashOf<Committed>,
)
    ensures
        pending.spec_chain_first(genesis_topology).header.genesis_consistent(),
        pending.spec_chain_first(genesis_topology).header.height == 1,
        height < u64::MAX && (height == 0 <==> previous_block_hash.hash == hash::Hash::zero())
            ==> pending.spec_chain(height, previous_block_hash).header.genesis_consistent(),
        forall|header: BlockHeader, transactions_hash: HashOf<MerkleRoot>, rejected: HashOf<MerkleRoot>|
            #[trigger] header.spec_with_roots(transactions_hash, rejected).genesis_consistent()
                == header.genesis_consistent(),
{
}

/// Whether `sign` can be asked to sign, with `key_pair`, each hash that
/// `digest` may give for `bytes`.
pub open spec fn can_sign<
    D: Fn(&[u8]) -> hash::Hash,
    S: Fn(&KeyPair, &hash::Hash) -> Result<Vec<u8>, SignError>,
>(digest: D, bytes: Seq<u8>, sign: S, key_pair: KeyPair) -> bool {
    forall|hash: hash::Hash|
        digests(digest, bytes, hash) ==> #[trigger] call_requires(sign, (&key_pair, &hash))
}

/// Whether the holder of `key_pair` is among the signers of `signatures`.
pub open spec fn has_signer_of(signatures: Seq<SignatureView>, key_pair: KeyPair) -> bool {
    crate::signature::has_signer(signatures, key_pair.public_key@)
}

/// When the block store receives a `ValidSignedBlock`, the block is stored
/// and then sent to the later stages of the pipeline as `CommittedBlock`.
#[derive(Debug, Clone, PartialEq, Eq)]
pub struct CommittedBlock {
    /// Block header
    pub header: BlockHeader,
    /// Array of rejected transactions.
    pub rejected_transactions: Vec<RejectedTransaction>,
    /// array of transactions, which successfully passed validation and consensus step.
    pub transactions: Vec<ValidTransaction>,
    /// Event recommendations.
    pub event_recommendations: Vec<Event>,
    /// Signatures of peers which approved this block
    pub signatures: SignaturesOf<Committed>,
}

impl CommittedBlock {
    /// The block as a valid signed one again: the same header, transactions,
    /// events and signatures.
    pub open spec fn spec_reopen(self) -> ValidSignedBlock {
        ValidSignedBlock {
            header: self.header,
            rejected_transactions: self.rejected_transactions,
            transactions: self.transactions,
            signatures: self.signatures.spec_transmute(),
            event_recommendations: self.event_recommendations,
        }
    }

    /// The events that say that the block is committed, where `block_hash`
    /// is the hash of the block: one for each valid transaction, which is
    /// committed, one for each rejected transaction, with the reason for
    /// which it was rejected, each group in the order of the block, then one
    /// for the block.
    pub open spec fn spec_events(&self, block_hash: hash::Hash) -> Seq<Event> {
        self.transactions@.map_values(
            |valid: ValidTransaction|
                Event::of_transaction(PipelineStatus::Committed, valid.transaction.hash),
        ) + self.rejected_transactions@.map_values(
            |rejected: RejectedTransaction|
                Event::of_transaction(
                    PipelineStatus::Rejected(rejected.rejection_reason),
                    rejected.transaction.hash,
                ),
        ) + seq![Event::of_block(PipelineStatus::Committed, block_hash)]
    }

    /// What queries see of the block, where `current_block_hash` is the hash
    /// of the block.
    pub open spec fn spec_value(self, current_block_hash: hash::Hash, value: BlockValue) -> bool {
        &&& value.header.timestamp == self.header.timestamp
        &&& value.header.height == self.header.height
        &&& value.header.previous_block_hash == self.header.previous_block_hash.hash
        &&& value.header.transactions_hash == self.header.transactions_hash
        &&& value.header.rejected_transactions_hash == self.header.rejected_transactions_hash
        &&& value.header.invalidated_blocks_hashes@.len() == 0
        &&& value.header.current_block_hash == current_block_hash
        &&& value.transactions == self.transactions
        &&& value.rejected_transactions == self.rejected_transactions
        &&& value.event_recommendations == self.event_recommendations
    }

    /// Calculate the hash of the current block.
    /// `CommittedBlock` has the same hash as the `ValidBlock` that it came
    /// from: the hash is taken from the header alone.
    #[inline]
    pub fn hash<D: Fn(&[u8]) -> hash::Hash>(&self, digest: &D) -> (hash: HashOf<Committed>)
        requires
            can_digest(*digest, self.header.encoding()),
        ensures
            digests(*digest, self.header.encoding(), hash.hash),
    {
        hash_of_bytes(&self.header.encode(), digest).typed()
    }

    /// Return the signatures that are verified with the `hash` of this block.
    ///
    /// `digest` computes the hash of the header. `verify` is asked once about
    /// each signature, with that hash, and a signature is returned exactly
    /// when `verify` answered `true` for it.
    #[inline]
    pub fn verified_signatures<
        D: Fn(&[u8]) -> hash::Hash,
        V: Fn(&Signature, &hash::Hash) -> bool,
    >(&self, digest: &D, verify: &V) -> (verified: Vec<&Signature>)
        requires
            can_digest(*digest, self.header.encoding()),
            forall|hash: HashOf<Committed>| #[trigger] self.signatures.can_verify(hash, *verify),
        ensures
            exists|hash: HashOf<Committed>, flags: Seq<bool>|
                digests(*digest, self.header.encoding(), hash.hash)
                    && #[trigger] self.signatures.verified_as(hash, *verify, flags)
                    && verified@.map_values(|signature: &Signature| signature@) == picked(
                    self.signatures@,
                    flags,
                ),
    {
        let hash = self.hash(digest);
        self.signatures.verified_by_hash(hash, verify)
    }

    /// The events that say that the block is committed, where `block_hash`
    /// is the hash of the block.
    pub fn events_for_hash(&self, block_hash: HashOf<Committed>) -> (events: Vec<Event>)
        ensures
            events@ == self.spec_events(block_hash.hash),
    {
        let mut events: Vec<Event> = Vec::new();
        let ghost committed = |valid: ValidTransaction|
            Event::of_transaction(PipelineStatus::Committed, valid.transaction.hash);
        let ghost turned_down = |rejected: RejectedTransaction|
            Event::of_transaction(
                PipelineStatus::Rejected(rejected.rejection_reason),
                rejected.transaction.hash,
            );
        let mut i: usize = 0;
        while i < self.transactions.len()
            invariant
                i <= self.transactions.len(),
                committed == |valid: ValidTransaction|
                    Event::of_transaction(PipelineStatus::Committed, valid.transaction.hash),
                events@ == self.transactions@.take(i as int).map_values(committed),
            decreases self.transactions.len() - i,
        {
            events.push(
                Event::Pipeline(
                    PipelineEvent::new(
                        PipelineEntityKind::Transaction,
                        PipelineStatus::Committed,
                        self.transactions[i].hash(),
                    ),
                ),
            );
            assert(events@ =~= self.transactions@.take(i + 1).map_values(committed));
            i += 1;
        }
        assert(self.transactions@.take(self.transactions@.len() as int) == self.transactions@);
        let mut j: usize = 0;
        while j < self.rejected_transactions.len()
            invariant
                j <= self.rejected_transactions.len(),
                turned_down == |rejected: RejectedTransaction|
                    Event::of_transaction(
                        PipelineStatus::Rejected(rejected.rejection_reason),
                        rejected.transaction.hash,
                    ),
                events@ == self.transactions@.map_values(committed)
                    + self.rejected_transactions@.take(j as int).map_values(turned_down),
            decreases self.rejected_transactions.len() - j,
        {
            events.push(
                Event::Pipeline(
                    PipelineEvent::new(
                        PipelineEntityKind::Transaction,
                        PipelineStatus::Rejected(self.rejected_transactions[j].rejection_reason),
                        self.rejected_transactions[j].hash(),
                    ),
                ),
            );
            assert(events@ =~= self.transactions@.map_values(committed)
                + self.rejected_transactions@.take(j + 1).map_values(turned_down));
            j += 1;
        }
        assert(self.rejected_transactions@.take(self.rejected_transactions@.len() as int)
            == self.rejected_transactions@);
        events.push(
            Event::Pipeline(
                PipelineEvent::new(
                    PipelineEntityKind::Block,
                    PipelineStatus::Committed,
                    block_hash.hash,
                ),
            ),
        );
        assert(events@ =~= self.spec_events(block_hash.hash));
        events
    }

    /// The events that say that the block is committed. `digest` computes
    /// the hash of the block.
    pub fn events<D: Fn(&[u8]) -> hash::Hash>(&self, digest: &D) -> (events: Vec<Event>)
        requires
            can_digest(*digest, self.header.encoding()),
        ensures
            exists|hash: hash::Hash| #[trigger]
                digests(*digest, self.header.encoding(), hash) && events@ == self.spec_events(
                    hash,
                ),
    {
        let hash = self.hash(digest);
        self.events_for_hash(hash)
    }

    /// Converts block to the representation that queries use, where
    /// `current_block_hash` is the hash of the block. The signatures are
    /// left out.
    pub fn into_value_for_hash(self, current_block_hash: HashOf<Committed>) -> (value: BlockValue)
        ensures
            self.spec_value(current_block_hash.hash, value),
    {
        let CommittedBlock { header, rejected_transactions, transactions, event_recommendations, .. } =
            self;
        let BlockHeader {
            timestamp,
            height,
            previous_block_hash,
            transactions_hash,
            rejected_transactions_hash,
            ..
        } = header;

        let header_value = BlockHeaderValue {
            timestamp,
            height,
            previous_block_hash: previous_block_hash.untyped(),
            transactions_hash,
            rejected_transactions_hash,
            invalidated_blocks_hashes: Vec::new(),
            current_block_hash: current_block_hash.untyped(),
        };

        BlockValue { header: header_value, transactions, rejected_transactions, event_recommendations }
    }
}

impl From<CommittedBlock> for ValidSignedBlock {
    #[inline]
    fn from(committed: CommittedBlock) -> (signed: Self) {
        let CommittedBlock { header, rejected_transactions, transactions, signatures, event_recommendations } =
            committed;
        Self {
            header,
            rejected_transactions,
            transactions,
            event_recommendations,
            signatures: signatures.transmute(),
        }
    }
}

impl vstd::std_specs::convert::FromSpecImpl<CommittedBlock> for ValidSignedBlock {
    open spec fn obeys_from_spec() -> bool {
        true
    }

    open spec fn from_spec(committed: CommittedBlock) -> Self {
        committed.spec_reopen()
    }
}

/// The header of a block, as queries see it.
#[derive(Debug, Clone, PartialEq, Eq)]
pub struct BlockHeaderValue {
    /// Unix time (in milliseconds) of block forming by a peer.
    pub timestamp: u128,
    /// a number of blocks in the chain up to the block.
    pub height: u64,
    /// Hash of a previous block in the chain.
    /// Is an array of zeros for the first block.
    pub previous_block_hash: hash::Hash,
    /// Hash of merkle tree root of the tree of valid transactions' hashes.
    pub transactions_hash: HashOf<MerkleRoot>,
    /// Hash of merkle tree root of the tree of rejected transactions' hashes.
    pub rejected_transactions_hash: HashOf<MerkleRoot>,
    /// Hashes of the blocks that were rejected by consensus.
    pub invalidated_blocks_hashes: Vec<hash::Hash>,
    /// Hash of the current block
    pub current_block_hash: hash::Hash,
}

/// A block, as queries see it.
#[derive(Debug, Clone, PartialEq, Eq)]
pub struct BlockValue {
    /// Header
    pub header: BlockHeaderValue,
    /// Array of transactions
    pub transactions: Vec<ValidTransaction>,
    /// Array of rejected transactions.
    pub rejected_transactions: Vec<RejectedTransaction>,
    /// Event recommendations
    pub event_recommendations: Vec<Event>,
}

/// A committed block in its versioned envelope. There is one version.
#[derive(Debug, Clone, PartialEq, Eq)]
pub enum VersionedCommittedBlock {
    /// The first version.
    V1(CommittedBlock),
}

impl VersionedCommittedBlock {
    /// The block in the envelope.
    pub open spec fn spec_v1(&self) -> CommittedBlock {
        match *self {
            VersionedCommittedBlock::V1(block) => block,
        }
    }

    /// Converts from `&VersionedCommittedBlock` to V1 reference
    #[inline]
    pub fn as_v1(&self) -> (block: &CommittedBlock)
        ensures
            *block == self.spec_v1(),
    {
        match self {
            Self::V1(v1) => v1,
        }
    }

    /// Converts from `&mut VersionedCommittedBlock` to V1 mutable reference
    #[inline]
    pub fn as_mut_v1(&mut self) -> (block: &mut CommittedBlock)
        ensures
            *block == old(self).spec_v1(),
            *final(self) == VersionedCommittedBlock::V1(*final(block)),
    {
        match self {
            Self::V1(v1) => v1,
        }
    }

    /// Performs the conversion from `VersionedCommittedBlock` to V1
    #[inline]
    pub fn into_v1(self) -> (block: CommittedBlock)
        ensures
            block == self.spec_v1(),
    {
        match self {
            Self::V1(v1) => v1,
        }
    }

    /// Calculate the hash of the current block.
    /// `VersionedCommittedBlock` has the same hash as the `CommittedBlock`
    /// in it.
    #[inline]
    pub fn hash<D: Fn(&[u8]) -> hash::Hash>(&self, digest: &D) -> (hash: HashOf<Committed>)
        requires
            can_digest(*digest, self.spec_v1().header.encoding()),
        ensures
            digests(*digest, self.spec_v1().header.encoding(), hash.hash),
    {
        self.as_v1().hash(digest)
    }

    /// Returns the header of a valid block
    #[inline]
    pub fn header(&self) -> (header: &BlockHeader)
        ensures
            *header == self.spec_v1().header,
    {
        &self.as_v1().header
    }

    /// Return the signatures that are verified with the `hash` of this block.
    #[inline]
    pub fn verified_signatures<
        D: Fn(&[u8]) -> hash::Hash,
        V: Fn(&Signature, &hash::Hash) -> bool,
    >(&self, digest: &D, verify: &V) -> (verified: Vec<&Signature>)
        requires
            can_digest(*digest, self.spec_v1().header.encoding()),
            forall|hash: HashOf<Committed>| #[trigger]
                self.spec_v1().signatures.can_verify(hash, *verify),
        ensures
            exists|hash: HashOf<Committed>, flags: Seq<bool>|
                digests(*digest, self.spec_v1().header.encoding(), hash.hash)
                    && #[trigger] self.spec_v1().signatures.verified_as(hash, *verify, flags)
                    && verified@.map_values(|signature: &Signature| signature@) == picked(
                    self.spec_v1().signatures@,
                    flags,
                ),
    {
        self.as_v1().verified_signatures(digest, verify)
    }

    /// The events that say that the block is committed. `digest` computes
    /// the hash of the block.
    #[inline]
    pub fn events<D: Fn(&[u8]) -> hash::Hash>(&self, digest: &D) -> (events: Vec<Event>)
        requires
            can_digest(*digest, self.spec_v1().header.encoding()),
        ensures
            exists|hash: hash::Hash| #[trigger]
                digests(*digest, self.spec_v1().header.encoding(), hash) && events@
                    == self.spec_v1().spec_events(hash),
    {
        self.as_v1().events(digest)
    }

    /// Converts block to the representation that queries use. `digest`
    /// computes the hash of the block.
    pub fn into_value<D: Fn(&[u8]) -> hash::Hash>(self, digest: &D) -> (value: BlockValue)
        requires
            can_digest(*digest, self.spec_v1().header.encoding()),
        ensures
            exists|hash: hash::Hash| #[trigger]
                digests(*digest, self.spec_v1().header.encoding(), hash)
                    && self.spec_v1().spec_value(hash, value),
    {
        let current_block_hash = self.hash(digest);
        self.into_v1().into_value_for_hash(current_block_hash)
    }
}

impl From<CommittedBlock> for VersionedCommittedBlock {
    #[inline]
    fn from(block: CommittedBlock) -> (versioned: Self) {
        VersionedCommittedBlock::V1(block)
    }
}

impl vstd::std_specs::convert::FromSpecImpl<CommittedBlock> for VersionedCommittedBlock {
    open spec fn obeys_from_spec() -> bool {
        true
    }

    open spec fn from_spec(block: CommittedBlock) -> Self {
        VersionedCommittedBlock::V1(block)
    }
}

} // verus!
