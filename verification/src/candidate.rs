//! The form in which a block travels between peers, and its revalidation
//! against the world state of the peer that receives it.
//!
//! A candidate block holds its transactions as signed transactions: the peer
//! that receives it has validated none of them. The two roots in its header
//! still bind the valid and the rejected transactions as the sender parted
//! them.

use crate::block::{CommittedBlock, ValidSignedBlock, VersionedCommittedBlock};
use crate::collaborator::{
    can_digest, can_root, digests, hash_of_bytes, merkle_root, roots, roots_is_function,
};
use crate::events::Event;
use crate::hash::{self, Candidate, Committed, HashOf, Signed};
use crate::header::BlockHeader;
use crate::signature::{picked, Signature, SignaturesOf};
use crate::transaction::{
    hashes, rejected_into_signed, signed_hashes, signed_of_rejected, signed_of_valid,
    valid_into_signed, AcceptedTransaction, RejectedTransaction, RejectionReason,
    SignedTransaction, TransactionLimitError, TransactionValidator, ValidTransaction, Verdict,
};
use crate::wsv::WorldStateView;
use vstd::prelude::*;

verus! {

/// Why a transaction that the sender had found valid does not pass
/// revalidation.
#[derive(Debug, Clone, Copy, PartialEq, Eq, Structural)]
pub enum RevalidationCause {
    /// The transaction is over a limit of this peer.
    Admission(TransactionLimitError),
    /// The validator rejects the transaction.
    Rejected(RejectionReason),
}

/// Why a candidate block does not pass revalidation.
#[derive(Debug, Clone, Copy, PartialEq, Eq)]
pub enum RevalidationError {
    /// The block holds no transaction at all.
    EmptyBlock,
    /// The block holds a transaction that is in the blockchain already.
    AlreadyCommitted,
    /// The block does not follow the latest block of this peer.
    PrevHashMismatch {
        /// Hash of the latest block of this peer.
        expected: hash::Hash,
        /// Previous-block hash in the header of the candidate.
        actual: hash::Hash,
    },
    /// The height of the block is not the height of the blockchain plus one.
    HeightMismatch {
        /// Height of the blockchain of this peer, plus one.
        expected: u64,
        /// Height in the header of the candidate.
        actual: u64,
    },
    /// The root of the valid transactions in the header is not the root of
    /// the transactions that the block holds as valid.
    TxRootMismatch,
    /// The root of the rejected transactions in the header is not the root
    /// of the transactions that the block holds as rejected.
    RejectedRootMismatch,
    /// A transaction that the block holds as rejected is over a limit of
    /// this peer.
    TxAdmissionFailed(TransactionLimitError),
    /// A transaction that the block holds as valid is not valid here.
    AcceptedTxRevalidationFailed(RevalidationCause),
    /// A transaction that the block holds as rejected is valid here.
    RejectedTxRevalidatesClean,
}

/// The accepted transaction that a signed transaction is once it has been
/// admitted again.
pub open spec fn readmitted(transaction: SignedTransaction) -> AcceptedTransaction {
    AcceptedTransaction { transaction }
}

/// The valid transaction that a signed transaction is once it has been
/// found valid again.
pub open spec fn revalidated(transaction: SignedTransaction) -> ValidTransaction {
    ValidTransaction { transaction }
}

/// Revalidate the block that was sent through the network by transforming it
/// back into [`ValidSignedBlock`].
#[derive(Debug, Clone, PartialEq, Eq)]
pub struct CandidateBlock {
    /// Block header
    pub header: BlockHeader,
    /// Array of rejected transactions.
    pub rejected_transactions: Vec<SignedTransaction>,
    /// Array of all transactions in this block.
    pub transactions: Vec<SignedTransaction>,
    /// Signatures of peers which approved this block.
    pub signatures: SignaturesOf<Candidate>,
    /// Event recommendations.
    pub event_recommendations: Vec<Event>,
}

impl CandidateBlock {
    /// Whether there are no transactions in this block.
    pub open spec fn spec_is_empty(&self) -> bool {
        self.transactions@.len() == 0 && self.rejected_transactions@.len() == 0
    }

    /// Whether one of `transactions` is in the blockchain already.
    pub open spec fn any_committed(transactions: Seq<SignedTransaction>, wsv: WorldStateView) -> bool {
        exists|i: int|
            0 <= i < transactions.len() && wsv.spec_has_transaction(
                (#[trigger] transactions[i]).hash,
            )
    }

    /// Whether the block has a transaction, valid or rejected, that is in
    /// the blockchain already.
    pub open spec fn spec_has_committed_transactions(&self, wsv: WorldStateView) -> bool {
        Self::any_committed(self.transactions@, wsv) || Self::any_committed(
            self.rejected_transactions@,
            wsv,
        )
    }

    /// The first of the checks on the shape of the block that fails, if one
    /// does, against the blockchain of this peer: its world state, the hash
    /// of its latest block, and its height. The checks, in their order: the
    /// block holds a transaction; none of its transactions is in the
    /// blockchain; it follows the latest block; its height is the height of
    /// the blockchain plus one.
    pub open spec fn structural_error(
        &self,
        wsv: WorldStateView,
        latest_block: HashOf<Committed>,
        block_height: u64,
    ) -> Option<RevalidationError> {
        if self.spec_is_empty() {
            Some(RevalidationError::EmptyBlock)
        } else if self.spec_has_committed_transactions(wsv) {
            Some(RevalidationError::AlreadyCommitted)
        } else if latest_block.hash != self.header.previous_block_hash.hash {
            Some(
                RevalidationError::PrevHashMismatch {
                    expected: latest_block.hash,
                    actual: self.header.previous_block_hash.hash,
                },
            )
        } else if block_height + 1 != self.header.height {
            Some(
                RevalidationError::HeightMismatch {
                    expected: (block_height + 1) as u64,
                    actual: self.header.height,
                },
            )
        } else {
            None
        }
    }

    /// Whether the two roots in the header are the Merkle roots of the hashes
    /// of the transactions that the block holds as valid and as rejected,
    /// each in the order of the block.
    pub open spec fn roots_bound<M: Fn(&[hash::Hash]) -> hash::Hash>(&self, merkle: M) -> bool {
        &&& roots(merkle, hashes(self.transactions@), self.header.transactions_hash.hash)
        &&& roots(
            merkle,
            hashes(self.rejected_transactions@),
            self.header.rejected_transactions_hash.hash,
        )
    }

    /// Whether `transaction` is within the limits of the validator and the
    /// validator answered `verdict` about it.
    pub open spec fn judged_again<V: Fn(&AcceptedTransaction, bool, &WorldStateView) -> Verdict>(
        &self,
        validator: TransactionValidator<V>,
        wsv: WorldStateView,
        transaction: SignedTransaction,
        verdict: Verdict,
    ) -> bool {
        &&& transaction.within(validator.transaction_limits)
        &&& validator.judges(readmitted(transaction), self.header.spec_is_genesis(), wsv, verdict)
    }

    /// Whether each of the first `count` transactions that the block holds
    /// as valid was admitted and found valid again.
    pub open spec fn valid_again<V: Fn(&AcceptedTransaction, bool, &WorldStateView) -> Verdict>(
        &self,
        validator: TransactionValidator<V>,
        wsv: WorldStateView,
        count: int,
    ) -> bool {
        forall|i: int|
            0 <= i < count ==> self.judged_again(
                validator,
                wsv,
                #[trigger] self.transactions@[i],
                Verdict::Valid,
            )
    }

    /// Whether each of the first `count` transactions that the block holds
    /// as rejected was admitted and rejected again, for some reason.
    pub open spec fn rejected_again<V: Fn(&AcceptedTransaction, bool, &WorldStateView) -> Verdict>(
        &self,
        validator: TransactionValidator<V>,
        wsv: WorldStateView,
        count: int,
    ) -> bool {
        forall|i: int| 0 <= i < count ==> #[trigger] self.rejected_again_at(validator, wsv, i)
    }

    /// Whether the transaction at `index` among those that the block holds
    /// as rejected was admitted and rejected again, for some reason.
    pub open spec fn rejected_again_at<
        V: Fn(&AcceptedTransaction, bool, &WorldStateView) -> Verdict,
    >(&self, validator: TransactionValidator<V>, wsv: WorldStateView, index: int) -> bool {
        exists|reason: RejectionReason| #[trigger]
            self.judged_again(
                validator,
                wsv,
                self.rejected_transactions@[index],
                Verdict::Rejected(reason),
            )
    }

    /// Whether `cause` is why the transaction at `index` among those that
    /// the block holds as valid fails: the limit that it is over, or the
    /// reason for which the validator rejected it.
    pub open spec fn fails_with<V: Fn(&AcceptedTransaction, bool, &WorldStateView) -> Verdict>(
        &self,
        validator: TransactionValidator<V>,
        wsv: WorldStateView,
        index: int,
        cause: RevalidationCause,
    ) -> bool {
        match cause {
            RevalidationCause::Admission(error) => self.transactions@[index].limit_exceeded(
                validator.transaction_limits,
            ) == Some(error),
            RevalidationCause::Rejected(reason) => self.judged_again(
                validator,
                wsv,
                self.transactions@[index],
                Verdict::Rejected(reason),
            ),
        }
    }

    /// Whether `block` is the candidate as a valid signed block: the same
    /// header, events and signatures, the transactions that it held as valid
    /// now valid, and those that it held as rejected now rejected, each for
    /// a reason that the validator gave, all in the order of the candidate.
    pub open spec fn revalidated_as<V: Fn(&AcceptedTransaction, bool, &WorldStateView) -> Verdict>(
        &self,
        validator: TransactionValidator<V>,
        wsv: WorldStateView,
        block: ValidSignedBlock,
    ) -> bool {
        &&& block.header == self.header
        &&& block.event_recommendations == self.event_recommendations
        &&& block.signatures == self.signatures.spec_transmute::<Signed>()
        &&& block.transactions@ == self.transactions@.map_values(
            |transaction: SignedTransaction| revalidated(transaction),
        )
        &&& signed_of_rejected(block.rejected_transactions@) == self.rejected_transactions@
        &&& forall|i: int|
            0 <= i < self.rejected_transactions@.len() ==> self.judged_again(
                validator,
                wsv,
                self.rejected_transactions@[i],
                Verdict::Rejected((#[trigger] block.rejected_transactions@[i]).rejection_reason),
            )
    }

    /// Whether `outcome` is a result of revalidating the block against the
    /// blockchain of this peer.
    ///
    /// Where a check on the shape of the block fails, the outcome is the
    /// error of the first that does. Else the roots are compared, the root
    /// of the valid transactions first. Else the transactions are judged
    /// again, in the order of the block and the valid ones first, and the
    /// first that fails decides: one held as valid that is over a limit or
    /// rejected, one held as rejected that is over a limit or valid. Where
    /// none fails the outcome is the block, revalidated.
    pub open spec fn revalidates_to<
        V: Fn(&AcceptedTransaction, bool, &WorldStateView) -> Verdict,
        M: Fn(&[hash::Hash]) -> hash::Hash,
    >(
        &self,
        validator: TransactionValidator<V>,
        merkle: M,
        wsv: WorldStateView,
        latest_block: HashOf<Committed>,
        block_height: u64,
        outcome: Result<ValidSignedBlock, RevalidationError>,
    ) -> bool {
        match self.structural_error(wsv, latest_block, block_height) {
            Some(error) => outcome == Err::<ValidSignedBlock, RevalidationError>(error),
            None => match outcome {
                Ok(block) => {
                    &&& self.roots_bound(merkle)
                    &&& self.valid_again(validator, wsv, self.transactions@.len() as int)
                    &&& self.revalidated_as(validator, wsv, block)
                },
                Err(RevalidationError::TxRootMismatch) => exists|root: hash::Hash|
                    #[trigger] roots(merkle, hashes(self.transactions@), root) && root
                        != self.header.transactions_hash.hash,
                Err(RevalidationError::RejectedRootMismatch) => {
                    &&& roots(
                        merkle,
                        hashes(self.transactions@),
                        self.header.transactions_hash.hash,
                    )
                    &&& exists|root: hash::Hash|
                        #[trigger] roots(merkle, hashes(self.rejected_transactions@), root)
                            && root != self.header.rejected_transactions_hash.hash
                },
                Err(RevalidationError::AcceptedTxRevalidationFailed(cause)) => {
                    &&& self.roots_bound(merkle)
                    &&& exists|index: int|
                        0 <= index < self.transactions@.len() && self.valid_again(
                            validator,
                            wsv,
                            index,
                        ) && #[trigger] self.fails_with(validator, wsv, index, cause)
                },
                Err(RevalidationError::TxAdmissionFailed(error)) => {
                    &&& self.roots_bound(merkle)
                    &&& self.valid_again(validator, wsv, self.transactions@.len() as int)
                    &&& exists|index: int|
                        0 <= index < self.rejected_transactions@.len() && self.rejected_again(
                            validator,
                            wsv,
                            index,
                        ) && (#[trigger] self.rejected_transactions@[index]).limit_exceeded(
                            validator.transaction_limits,
                        ) == Some(error)
                },
                Err(RevalidationError::RejectedTxRevalidatesClean) => {
                    &&& self.roots_bound(merkle)
                    &&& self.valid_again(validator, wsv, self.transactions@.len() as int)
                    &&& exists|index: int|
                        0 <= index < self.rejected_transactions@.len() && self.rejected_again(
                            validator,
                            wsv,
                            index,
                        ) && self.judged_again(
                            validator,
                            wsv,
                            #[trigger] self.rejected_transactions@[index],
                            Verdict::Valid,
                        )
                },
                Err(_) => false,
            },
        }
    }

    /// Whether the validator can be asked about each transaction of the
    /// block, once admitted again.
    pub open spec fn can_revalidate<V: Fn(&AcceptedTransaction, bool, &WorldStateView) -> Verdict>(
        &self,
        validator: TransactionValidator<V>,
        wsv: WorldStateView,
    ) -> bool {
        &&& forall|i: int|
            0 <= i < self.transactions@.len() ==> validator.accepts(
                readmitted(#[trigger] self.transactions@[i]),
                self.header.spec_is_genesis(),
                wsv,
            )
        &&& forall|i: int|
            0 <= i < self.rejected_transactions@.len() ==> validator.accepts(
                readmitted(#[trigger] self.rejected_transactions@[i]),
                self.header.spec_is_genesis(),
                wsv,
            )
    }

    /// Calculate the hash of the current block.
    #[inline]
    pub fn hash<D: Fn(&[u8]) -> hash::Hash>(&self, digest: &D) -> (hash: HashOf<Candidate>)
        requires
            can_digest(*digest, self.header.encoding()),
        ensures
            digests(*digest, self.header.encoding(), hash.hash),
    {
        hash_of_bytes(&self.header.encode(), digest).typed()
    }

    /// Return the signatures that are verified with the `hash` of this block.
    ///
    /// `digest` computes the hash of the header. `verify` is asked once about
    /// each signature, with that hash, and a signature is returned exactly
    /// when `verify` answered `true` for it.
    #[inline]
    pub fn verified_signatures<
        D: Fn(&[u8]) -> hash::Hash,
        V: Fn(&Signature, &hash::Hash) -> bool,
    >(&self, digest: &D, verify: &V) -> (verified: Vec<&Signature>)
        requires
            can_digest(*digest, self.header.encoding()),
            forall|hash: HashOf<Candidate>| #[trigger] self.signatures.can_verify(hash, *verify),
        ensures
            exists|hash: HashOf<Candidate>, flags: Seq<bool>|
                digests(*digest, self.header.encoding(), hash.hash)
                    && #[trigger] self.signatures.verified_as(hash, *verify, flags)
                    && verified@.map_values(|signature: &Signature| signature@) == picked(
                    self.signatures@,
                    flags,
                ),
    {
        let hash = self.hash(digest);
        self.signatures.verified_by_hash(hash, verify)
    }

    /// Check if there are no transactions in this block.
    #[inline]
    pub fn is_empty(&self) -> (empty: bool)
        ensures
            empty == self.spec_is_empty(),
    {
        self.transactions.is_empty() && self.rejected_transactions.is_empty()
    }

    /// Check if a block has transactions that are already in the blockchain.
    pub fn has_committed_transactions(&self, wsv: &WorldStateView) -> (committed: bool)
        ensures
            committed == self.spec_has_committed_transactions(*wsv),
    {
        any_in_blockchain(&self.transactions, wsv) || any_in_blockchain(
            &self.rejected_transactions,
            wsv,
        )
    }

    /// Checks the shape of the block against the blockchain of this peer.
    ///
    /// # Errors
    /// The first of these that holds:
    /// - Block is empty
    /// - Block has committed transactions
    /// - There is a mismatch between candidate block previous block hash and actual latest block hash
    /// - There is a mismatch between candidate block height and actual blockchain height
    pub fn check_structure(
        &self,
        wsv: &WorldStateView,
        latest_block: &HashOf<Committed>,
        block_height: u64,
    ) -> (checked: Result<(), RevalidationError>)
        requires
            block_height < u64::MAX,
        ensures
            checked == match self.structural_error(*wsv, *latest_block, block_height) {
                Some(error) => Err::<(), RevalidationError>(error),
                None => Ok(()),
            },
    {
        if self.is_empty() {
            return Err(RevalidationError::EmptyBlock);
        }
        if self.has_committed_transactions(wsv) {
            return Err(RevalidationError::AlreadyCommitted);
        }
        if latest_block.hash != self.header.previous_block_hash.hash {
            return Err(
                RevalidationError::PrevHashMismatch {
                    expected: latest_block.hash,
                    actual: self.header.previous_block_hash.hash,
                },
            );
        }
        if block_height + 1 != self.header.height {
            return Err(
                RevalidationError::HeightMismatch {
                    expected: block_height + 1,
                    actual: self.header.height,
                },
            );
        }
        Ok(())
    }

    /// Checks a root of the transactions that the block holds as valid
    /// against the root in the header.
    ///
    /// # Errors
    /// Block header transactions hash does not match `root`
    pub fn check_transactions_root(&self, root: &hash::Hash) -> (checked: Result<
        (),
        RevalidationError,
    >)
        ensures
            checked == if *root == self.header.transactions_hash.hash {
                Ok::<(), RevalidationError>(())
            } else {
                Err(RevalidationError::TxRootMismatch)
            },
    {
        if *root != self.header.transactions_hash.hash {
            return Err(RevalidationError::TxRootMismatch);
        }
        Ok(())
    }

    /// Checks a root of the transactions that the block holds as rejected
    /// against the root in the header.
    ///
    /// # Errors
    /// Block header rejected transactions hash does not match `root`
    pub fn check_rejected_transactions_root(&self, root: &hash::Hash) -> (checked: Result<
        (),
        RevalidationError,
    >)
        ensures
            checked == if *root == self.header.rejected_transactions_hash.hash {
                Ok::<(), RevalidationError>(())
            } else {
                Err(RevalidationError::RejectedRootMismatch)
            },
    {
        if *root != self.header.rejected_transactions_hash.hash {
            return Err(RevalidationError::RejectedRootMismatch);
        }
        Ok(())
    }

    /// What becomes of a transaction that the block holds as valid, once it
    /// has been judged again: it stays valid, or fails the block.
    ///
    /// # Errors
    /// The validator rejects the transaction
    pub fn expect_valid(judged: Result<ValidTransaction, RejectedTransaction>) -> (expected:
        Result<ValidTransaction, RevalidationError>)
        ensures
            expected == match judged {
                Ok(valid) => Ok::<ValidTransaction, RevalidationError>(valid),
                Err(rejected) => Err(
                    RevalidationError::AcceptedTxRevalidationFailed(
                        RevalidationCause::Rejected(rejected.rejection_reason),
                    ),
                ),
            },
    {
        match judged {
            Ok(valid) => Ok(valid),
            Err(rejected) => Err(
                RevalidationError::AcceptedTxRevalidationFailed(
                    RevalidationCause::Rejected(rejected.rejection_reason),
                ),
            ),
        }
    }

    /// What becomes of a transaction that the block holds as rejected, once
    /// it has been judged again: it stays rejected, for the reason of this
    /// peer, or fails the block.
    ///
    /// # Errors
    /// The validator finds the transaction valid
    pub fn expect_rejected(judged: Result<ValidTransaction, RejectedTransaction>) -> (expected:
        Result<RejectedTransaction, RevalidationError>)
        ensures
            expected == match judged {
                Ok(_) => Err::<RejectedTransaction, RevalidationError>(
                    RevalidationError::RejectedTxRevalidatesClean,
                ),
                Err(rejected) => Ok(rejected),
            },
    {
        match judged {
            Ok(_) => Err(RevalidationError::RejectedTxRevalidatesClean),
            Err(rejected) => Ok(rejected),
        }
    }

    /// Revalidate a block against the current state of the world.
    ///
    /// The checks, in their order: the shape of the block against the
    /// blockchain of this peer; the root of the valid transactions, then the
    /// root of the rejected ones, each computed by `merkle` and compared with
    /// the header; each transaction held as valid, admitted under the limits
    /// of the validator and judged by it; each transaction held as rejected,
    /// likewise. The first check that fails ends the revalidation, and
    /// nothing of the block comes back.
    ///
    /// # Errors
    /// - Block is empty
    /// - Block has committed transactions
    /// - There is a mismatch between candidate block previous block hash and actual latest block hash
    /// - There is a mismatch between candidate block height and actual blockchain height
    /// - Block header transaction hashes don't match with computed transaction hashes
    /// - Error during revalidation of individual transactions
    #[verifier::loop_isolation(false)]
    pub fn revalidate<
        V: Fn(&AcceptedTransaction, bool, &WorldStateView) -> Verdict,
        M: Fn(&[hash::Hash]) -> hash::Hash,
    >(
        self,
        transaction_validator: &TransactionValidator<V>,
        merkle: &M,
        wsv: &WorldStateView,
        latest_block: &HashOf<Committed>,
        block_height: u64,
    ) -> (outcome: Result<ValidSignedBlock, RevalidationError>)
        requires
            block_height < u64::MAX,
            self.can_revalidate(*transaction_validator, *wsv),
            can_root(*merkle, hashes(self.transactions@)),
            can_root(*merkle, hashes(self.rejected_transactions@)),
        ensures
            self.revalidates_to(
                *transaction_validator,
                *merkle,
                *wsv,
                *latest_block,
                block_height,
                outcome,
            ),
    {
        match self.check_structure(wsv, latest_block, block_height) {
            Err(error) => {
                return Err(error);
            },
            Ok(()) => {},
        }
        let ghost candidate = self;

        // Validate that header transactions hashes are matched with actual hashes
        let leaves = signed_hashes(&self.transactions);
        let root = merkle_root(&leaves, merkle);
        match self.check_transactions_root(&root) {
            Err(error) => {
                return Err(error);
            },
            Ok(()) => {},
        }
        let rejected_leaves = signed_hashes(&self.rejected_transactions);
        let rejected_root = merkle_root(&rejected_leaves, merkle);
        match self.check_rejected_transactions_root(&rejected_root) {
            Err(error) => {
                return Err(error);
            },
            Ok(()) => {},
        }
        assert(candidate.roots_bound(*merkle));
        let CandidateBlock { header, rejected_transactions, transactions, signatures, event_recommendations } =
            self;
        let is_genesis = header.is_genesis();

        // Check that valid transactions are still valid
        let ghost held_valid = candidate.transactions@;
        let mut valid: Vec<ValidTransaction> = Vec::new();
        for transaction in it: transactions.into_iter()
            invariant
                it.seq() == held_valid,
                candidate.valid_again(*transaction_validator, *wsv, it.index() as int),
                valid@ == held_valid.take(it.index() as int).map_values(
                    |transaction: SignedTransaction| revalidated(transaction),
                ),
        {
            let ghost index = it.index() as int;
            assert(transaction == held_valid[index]);
            match AcceptedTransaction::from_transaction(
                transaction,
                &transaction_validator.transaction_limits,
            ) {
                Err(error) => {
                    assert(candidate.fails_with(
                        *transaction_validator,
                        *wsv,
                        index,
                        RevalidationCause::Admission(error),
                    ));
                    return Err(
                        RevalidationError::AcceptedTxRevalidationFailed(
                            RevalidationCause::Admission(error),
                        ),
                    );
                },
                Ok(accepted) => {
                    assert(accepted == readmitted(held_valid[index]));
                    let judged = transaction_validator.validate(accepted, is_genesis, wsv);
                    match Self::expect_valid(judged) {
                        Ok(judged) => {
                            valid.push(judged);
                            assert(valid@ =~= held_valid.take(index + 1).map_values(
                                |transaction: SignedTransaction| revalidated(transaction),
                            ));
                        },
                        Err(error) => {
                            assert(candidate.fails_with(
                                *transaction_validator,
                                *wsv,
                                index,
                                RevalidationCause::Rejected(judged->Err_0.rejection_reason),
                            ));
                            return Err(error);
                        },
                    }
                },
            }
        }
        assert(held_valid.take(held_valid.len() as int) == held_valid);

        // Check that rejected transactions are indeed rejected
        let ghost held_rejected = candidate.rejected_transactions@;
        let mut rejected: Vec<RejectedTransaction> = Vec::new();
        for transaction in it: rejected_transactions.into_iter()
            invariant
                it.seq() == held_rejected,
                rejected@.len() == it.index(),
                signed_of_rejected(rejected@) == held_rejected.take(it.index() as int),
                forall|j: int|
                    0 <= j < it.index() ==> candidate.judged_again(
                        *transaction_validator,
                        *wsv,
                        held_rejected[j],
                        Verdict::Rejected((#[trigger] rejected@[j]).rejection_reason),
                    ),
        {
            let ghost index = it.index() as int;
            assert(transaction == held_rejected[index]);
            assert(candidate.rejected_again(*transaction_validator, *wsv, index)) by {
                assert forall|j: int| 0 <= j < index implies #[trigger] candidate.rejected_again_at(
                    *transaction_validator,
                    *wsv,
                    j,
                ) by {
                    assert(candidate.judged_again(
                        *transaction_validator,
                        *wsv,
                        held_rejected[j],
                        Verdict::Rejected(rejected@[j].rejection_reason),
                    ));
                }
            }
            match AcceptedTransaction::from_transaction(
                transaction,
                &transaction_validator.transaction_limits,
            ) {
                Err(error) => {
                    return Err(RevalidationError::TxAdmissionFailed(error));
                },
                Ok(accepted) => {
                    assert(accepted == readmitted(held_rejected[index]));
                    let judged = transaction_validator.validate(accepted, is_genesis, wsv);
                    match Self::expect_rejected(judged) {
                        Ok(judged) => {
                            rejected.push(judged);
                            assert(signed_of_rejected(rejected@) =~= held_rejected.take(index + 1));
                        },
                        Err(error) => {
                            return Err(error);
                        },
                    }
                },
            }
        }
        assert(held_rejected.take(held_rejected.len() as int) == held_rejected);

        let block = ValidSignedBlock {
            header,
            transactions: valid,
            rejected_transactions: rejected,
            event_recommendations,
            signatures: signatures.transmute(),
        };
        assert(candidate.revalidated_as(*transaction_validator, *wsv, block));
        Ok(block)
    }

    /// Whether the block is the wire form of `block`: the same header,
    /// events and signatures, and its transactions as signed transactions,
    /// the valid and the rejected ones each in their order.
    pub open spec fn is_wire_form_of(&self, block: ValidSignedBlock) -> bool {
        &&& self.header == block.header
        &&& self.transactions@ == signed_of_valid(block.transactions@)
        &&& self.rejected_transactions@ == signed_of_rejected(block.rejected_transactions@)
        &&& self.signatures == block.signatures.spec_transmute::<Candidate>()
        &&& self.event_recommendations == block.event_recommendations
    }

    /// Whether `error` is why the transaction at `index` among those that
    /// the block holds as rejected fails: it is over a limit, or the
    /// validator finds it valid.
    pub open spec fn rejected_fails_with<
        V: Fn(&AcceptedTransaction, bool, &WorldStateView) -> Verdict,
    >(
        &self,
        validator: TransactionValidator<V>,
        wsv: WorldStateView,
        index: int,
        error: RevalidationError,
    ) -> bool {
        match error {
            RevalidationError::TxAdmissionFailed(limit) => self.rejected_transactions@[index].limit_exceeded(
                validator.transaction_limits,
            ) == Some(limit),
            RevalidationError::RejectedTxRevalidatesClean => self.judged_again(
                validator,
                wsv,
                self.rejected_transactions@[index],
                Verdict::Valid,
            ),
            _ => false,
        }
    }

    /// Among the transactions that the block holds as valid, the first that
    /// fails is one transaction, and it fails for one cause. `second_index`
    /// may be the number of those transactions, which says that none fails.
    proof fn lemma_valid_failure_decided<
        V: Fn(&AcceptedTransaction, bool, &WorldStateView) -> Verdict,
    >(
        self,
        validator: TransactionValidator<V>,
        wsv: WorldStateView,
        first_index: int,
        first_cause: RevalidationCause,
        second_index: int,
        second_cause: RevalidationCause,
    )
        requires
            validator.is_function(),
            0 <= first_index < self.transactions@.len(),
            self.valid_again(validator, wsv, first_index),
            self.fails_with(validator, wsv, first_index, first_cause),
            0 <= second_index <= self.transactions@.len(),
            self.valid_again(validator, wsv, second_index),
            second_index < self.transactions@.len() ==> self.fails_with(
                validator,
                wsv,
                second_index,
                second_cause,
            ),
        ensures
            second_index <= first_index,
            second_index == first_index ==> first_cause == second_cause,
    {
        let transaction = self.transactions@[first_index];
        let accepted = readmitted(transaction);
        let genesis = self.header.spec_is_genesis();
        if second_index > first_index {
            assert(self.judged_again(validator, wsv, transaction, Verdict::Valid));
            assert(validator.judges(accepted, genesis, wsv, Verdict::Valid));
            match first_cause {
                RevalidationCause::Admission(_) => {},
                RevalidationCause::Rejected(reason) => {
                    assert(validator.judges(accepted, genesis, wsv, Verdict::Rejected(reason)));
                },
            }
        } else if second_index == first_index {
            match (first_cause, second_cause) {
                (RevalidationCause::Rejected(first), RevalidationCause::Rejected(second)) => {
                    assert(validator.judges(accepted, genesis, wsv, Verdict::Rejected(first)));
                    assert(validator.judges(accepted, genesis, wsv, Verdict::Rejected(second)));
                },
                _ => {},
            }
        }
    }

    /// Among the transactions that the block holds as rejected, the first
    /// that fails is one transaction, and it fails with one error.
    /// `second_index` may be the number of those transactions, which says
    /// that none fails.
    proof fn lemma_rejected_failure_decided<
        V: Fn(&AcceptedTransaction, bool, &WorldStateView) -> Verdict,
    >(
        self,
        validator: TransactionValidator<V>,
        wsv: WorldStateView,
        first_index: int,
        first_error: RevalidationError,
        second_index: int,
        second_error: RevalidationError,
    )
        requires
            validator.is_function(),
            0 <= first_index < self.rejected_transactions@.len(),
            self.rejected_again(validator, wsv, first_index),
            self.rejected_fails_with(validator, wsv, first_index, first_error),
            0 <= second_index <= self.rejected_transactions@.len(),
            self.rejected_again(validator, wsv, second_index),
            second_index < self.rejected_transactions@.len() ==> self.rejected_fails_with(
                validator,
                wsv,
                second_index,
                second_error,
            ),
        ensures
            second_index <= first_index,
            second_index == first_index ==> first_error == second_error,
    {
        let transaction = self.rejected_transactions@[first_index];
        let accepted = readmitted(transaction);
        let genesis = self.header.spec_is_genesis();
        if second_index > first_index {
            assert(self.rejected_again_at(validator, wsv, first_index));
            let reason = choose|reason: RejectionReason| #[trigger]
                self.judged_again(validator, wsv, transaction, Verdict::Rejected(reason));
            assert(validator.judges(accepted, genesis, wsv, Verdict::Rejected(reason)));
            match first_error {
                RevalidationError::RejectedTxRevalidatesClean => {
                    assert(validator.judges(accepted, genesis, wsv, Verdict::Valid));
                },
                _ => {},
            }
        }
    }

    /// Revalidation is decided by the candidate and the answers of the
    /// collaborators. With a validator and a Merkle function that have one
    /// answer only to each question, two outcomes of revalidating one
    /// candidate against one blockchain are the same: the same error, or
    /// blocks with the same header, signatures, events and transactions.
    pub proof fn lemma_revalidation_decided<
        V: Fn(&AcceptedTransaction, bool, &WorldStateView) -> Verdict,
        M: Fn(&[hash::Hash]) -> hash::Hash,
    >(
        self,
        validator: TransactionValidator<V>,
        merkle: M,
        wsv: WorldStateView,
        latest_block: HashOf<Committed>,
        block_height: u64,
        first: Result<ValidSignedBlock, RevalidationError>,
        second: Result<ValidSignedBlock, RevalidationError>,
    )
        requires
            validator.is_function(),
            roots_is_function(merkle),
            self.revalidates_to(validator, merkle, wsv, latest_block, block_height, first),
            self.revalidates_to(validator, merkle, wsv, latest_block, block_height, second),
        ensures
            first is Ok <==> second is Ok,
            first is Err ==> first->Err_0 == second->Err_0,
            first is Ok ==> {
                &&& first->Ok_0.header == second->Ok_0.header
                &&& first->Ok_0.signatures == second->Ok_0.signatures
                &&& first->Ok_0.event_recommendations == second->Ok_0.event_recommendations
                &&& first->Ok_0.transactions@ == second->Ok_0.transactions@
                &&& first->Ok_0.rejected_transactions@ == second->Ok_0.rejected_transactions@
            },
    {
        if self.structural_error(wsv, latest_block, block_height) is None {
            let first_roots = self.roots_mismatch(merkle, first);
            let second_roots = self.roots_mismatch(merkle, second);
            if !first_roots && !second_roots {
                assert(self.roots_bound(merkle));
                let valid_count = self.transactions@.len() as int;
                let rejected_count = self.rejected_transactions@.len() as int;
                let (first_valid, first_cause) = self.valid_failure(validator, wsv, first);
                let (second_valid, second_cause) = self.valid_failure(validator, wsv, second);
                if first_valid < valid_count {
                    self.lemma_valid_failure_decided(
                        validator,
                        wsv,
                        first_valid,
                        first_cause,
                        second_valid,
                        second_cause,
                    );
                }
                if second_valid < valid_count {
                    self.lemma_valid_failure_decided(
                        validator,
                        wsv,
                        second_valid,
                        second_cause,
                        first_valid,
                        first_cause,
                    );
                }
                if first_valid == valid_count && second_valid == valid_count {
                    let first_rejected = self.rejected_failure(validator, wsv, first);
                    let second_rejected = self.rejected_failure(validator, wsv, second);
                    self.lemma_all_rejected_again(validator, wsv, first);
                    self.lemma_all_rejected_again(validator, wsv, second);
                    if first_rejected < rejected_count {
                        self.lemma_rejected_failure_decided(
                            validator,
                            wsv,
                            first_rejected,
                            first->Err_0,
                            second_rejected,
                            second->Err_0,
                        );
                    }
                    if second_rejected < rejected_count {
                        self.lemma_rejected_failure_decided(
                            validator,
                            wsv,
                            second_rejected,
                            second->Err_0,
                            first_rejected,
                            first->Err_0,
                        );
                    }
                    if first is Ok && second is Ok {
                        self.lemma_blocks_agree(validator, wsv, first->Ok_0, second->Ok_0);
                    }
                }
            }
        }
    }

    /// Whether `outcome` is the mismatch of a root.
    spec fn roots_mismatch<M: Fn(&[hash::Hash]) -> hash::Hash>(
        &self,
        merkle: M,
        outcome: Result<ValidSignedBlock, RevalidationError>,
    ) -> bool {
        outcome == Err::<ValidSignedBlock, RevalidationError>(RevalidationError::TxRootMismatch)
            || outcome == Err::<ValidSignedBlock, RevalidationError>(
            RevalidationError::RejectedRootMismatch,
        )
    }

    /// The index of the transaction held as valid that `outcome` says has
    /// failed, with the cause, or the number of those transactions where
    /// `outcome` says that none has.
    spec fn valid_failure<V: Fn(&AcceptedTransaction, bool, &WorldStateView) -> Verdict>(
        &self,
        validator: TransactionValidator<V>,
        wsv: WorldStateView,
        outcome: Result<ValidSignedBlock, RevalidationError>,
    ) -> (int, RevalidationCause) {
        match outcome {
            Err(RevalidationError::AcceptedTxRevalidationFailed(cause)) => (
                choose|index: int|
                    0 <= index < self.transactions@.len() && self.valid_again(
                        validator,
                        wsv,
                        index,
                    ) && #[trigger] self.fails_with(validator, wsv, index, cause),
                cause,
            ),
            _ => (
                self.transactions@.len() as int,
                RevalidationCause::Rejected(RejectionReason::NotPermitted),
            ),
        }
    }

    /// The index of the transaction held as rejected that `outcome` says
    /// has failed, or the number of those transactions where `outcome` is a
    /// block.
    spec fn rejected_failure<V: Fn(&AcceptedTransaction, bool, &WorldStateView) -> Verdict>(
        &self,
        validator: TransactionValidator<V>,
        wsv: WorldStateView,
        outcome: Result<ValidSignedBlock, RevalidationError>,
    ) -> int {
        match outcome {
            Err(RevalidationError::TxAdmissionFailed(limit)) => choose|index: int|
                0 <= index < self.rejected_transactions@.len() && self.rejected_again(
                    validator,
                    wsv,
                    index,
                ) && (#[trigger] self.rejected_transactions@[index]).limit_exceeded(
                    validator.transaction_limits,
                ) == Some(limit),
            Err(RevalidationError::RejectedTxRevalidatesClean) => choose|index: int|
                0 <= index < self.rejected_transactions@.len() && self.rejected_again(
                    validator,
                    wsv,
                    index,
                ) && self.judged_again(
                    validator,
                    wsv,
                    #[trigger] self.rejected_transactions@[index],
                    Verdict::Valid,
                ),
            _ => self.rejected_transactions@.len() as int,
        }
    }

    /// An outcome that is a block says of each transaction held as rejected
    /// that it was rejected again.
    proof fn lemma_all_rejected_again<
        V: Fn(&AcceptedTransaction, bool, &WorldStateView) -> Verdict,
    >(
        self,
        validator: TransactionValidator<V>,
        wsv: WorldStateView,
        outcome: Result<ValidSignedBlock, RevalidationError>,
    )
        requires
            outcome matches Ok(block) ==> self.revalidated_as(validator, wsv, block),
        ensures
            outcome is Ok ==> self.rejected_again(
                validator,
                wsv,
                self.rejected_transactions@.len() as int,
            ),
    {
        if let Ok(block) = outcome {
            assert forall|i: int| 0 <= i < self.rejected_transactions@.len() implies #[trigger]
                self.rejected_again_at(validator, wsv, i) by {
                assert(self.judged_again(
                    validator,
                    wsv,
                    self.rejected_transactions@[i],
                    Verdict::Rejected(block.rejected_transactions@[i].rejection_reason),
                ));
            }
        }
    }

    /// Two blocks that a candidate was revalidated as hold the same.
    proof fn lemma_blocks_agree<V: Fn(&AcceptedTransaction, bool, &WorldStateView) -> Verdict>(
        self,
        validator: TransactionValidator<V>,
        wsv: WorldStateView,
        first: ValidSignedBlock,
        second: ValidSignedBlock,
    )
        requires
            validator.is_function(),
            self.revalidated_as(validator, wsv, first),
            self.revalidated_as(validator, wsv, second),
        ensures
            first.header == second.header,
            first.signatures == second.signatures,
            first.event_recommendations == second.event_recommendations,
            first.transactions@ == second.transactions@,
            first.rejected_transactions@ == second.rejected_transactions@,
    {
        let genesis = self.header.spec_is_genesis();
        assert(first.transactions@ =~= second.transactions@);
        assert(signed_of_rejected(first.rejected_transactions@).len()
            == first.rejected_transactions@.len());
        assert(signed_of_rejected(second.rejected_transactions@).len()
            == second.rejected_transactions@.len());
        assert forall|i: int| 0 <= i < first.rejected_transactions@.len() implies
            first.rejected_transactions@[i] == second.rejected_transactions@[i] by {
            let transaction = self.rejected_transactions@[i];
            assert(signed_of_rejected(first.rejected_transactions@)[i] == transaction);
            assert(signed_of_rejected(second.rejected_transactions@)[i] == transaction);
            assert(self.judged_again(
                validator,
                wsv,
                transaction,
                Verdict::Rejected(first.rejected_transactions@[i].rejection_reason),
            ));
            assert(self.judged_again(
                validator,
                wsv,
                transaction,
                Verdict::Rejected(second.rejected_transactions@[i].rejection_reason),
            ));
            assert(validator.judges(
                readmitted(transaction),
                genesis,
                wsv,
                Verdict::Rejected(first.rejected_transactions@[i].rejection_reason),
            ));
            assert(validator.judges(
                readmitted(transaction),
                genesis,
                wsv,
                Verdict::Rejected(second.rejected_transactions@[i].rejection_reason),
            ));
        }
        assert(first.rejected_transactions@ =~= second.rejected_transactions@);
    }

    /// A valid signed block that went over the wire and passed revalidation
    /// comes back as it was: the same header, so the same header bytes and
    /// the same hash; the same valid transactions; the same rejected
    /// transactions, in the same order, each with the reason that the
    /// validator gave this time; the same signatures.
    pub proof fn lemma_round_trip<
        V: Fn(&AcceptedTransaction, bool, &WorldStateView) -> Verdict,
        M: Fn(&[hash::Hash]) -> hash::Hash,
    >(
        self,
        block: ValidSignedBlock,
        validator: TransactionValidator<V>,
        merkle: M,
        wsv: WorldStateView,
        latest_block: HashOf<Committed>,
        block_height: u64,
        back: ValidSignedBlock,
    )
        requires
            self.is_wire_form_of(block),
            self.revalidates_to(validator, merkle, wsv, latest_block, block_height, Ok(back)),
        ensures
            back.header == block.header,
            back.header.encoding() == block.header.encoding(),
            back.transactions@ == block.transactions@,
            signed_of_rejected(back.rejected_transactions@) == signed_of_rejected(
                block.rejected_transactions@,
            ),
            back.signatures == block.signatures,
            back.event_recommendations == block.event_recommendations,
    {
        block.signatures.lemma_transmute::<Candidate>();
        assert(back.transactions@ =~= block.transactions@);
    }
}

/// Whether one of `transactions` is in the blockchain already.
pub fn any_in_blockchain(transactions: &Vec<SignedTransaction>, wsv: &WorldStateView) -> (any: bool)
    ensures
        any == CandidateBlock::any_committed(transactions@, *wsv),
{
    let mut i: usize = 0;
    while i < transactions.len()
        invariant
            i <= transactions.len(),
            forall|j: int|
                0 <= j < i ==> !wsv.spec_has_transaction((#[trigger] transactions@[j]).hash),
        decreases transactions.len() - i,
    {
        if transactions[i].is_in_blockchain(wsv) {
            return true;
        }
        i += 1;
    }
    false
}

impl From<ValidSignedBlock> for CandidateBlock {
    /// The wire form of a valid signed block. Nothing is lost but the
    /// reasons for which transactions were rejected, which the receiver
    /// finds again.
    fn from(valid_block: ValidSignedBlock) -> (candidate: Self)
        ensures
            candidate.is_wire_form_of(valid_block),
            candidate.signatures@ == valid_block.signatures@,
    {
        let ValidSignedBlock { header, rejected_transactions, transactions, signatures, event_recommendations } =
            valid_block;
        Self {
            header,
            rejected_transactions: rejected_into_signed(rejected_transactions),
            transactions: valid_into_signed(transactions),
            signatures: signatures.transmute(),
            event_recommendations,
        }
    }
}

impl vstd::std_specs::convert::FromSpecImpl<ValidSignedBlock> for CandidateBlock {
    /// The conversion makes new lists of transactions, so what it gives is
    /// said by `is_wire_form_of` and not by a function of the block.
    open spec fn obeys_from_spec() -> bool {
        false
    }

    open spec fn from_spec(valid_block: ValidSignedBlock) -> Self {
        arbitrary()
    }
}

impl From<CommittedBlock> for CandidateBlock {
    /// The wire form of a committed block.
    fn from(committed: CommittedBlock) -> (candidate: Self)
        ensures
            candidate.is_wire_form_of(committed.spec_reopen()),
            candidate.signatures@ == committed.signatures@,
    {
        let CommittedBlock { header, rejected_transactions, transactions, signatures, event_recommendations } =
            committed;
        proof {
            signatures.lemma_transmute_twice::<Signed, Candidate>();
        }
        Self {
            header,
            rejected_transactions: rejected_into_signed(rejected_transactions),
            transactions: valid_into_signed(transactions),
            event_recommendations,
            signatures: signatures.transmute(),
        }
    }
}

impl vstd::std_specs::convert::FromSpecImpl<CommittedBlock> for CandidateBlock {
    /// The conversion makes new lists of transactions, so what it gives is
    /// said by `is_wire_form_of` and not by a function of the block.
    open spec fn obeys_from_spec() -> bool {
        false
    }

    open spec fn from_spec(committed: CommittedBlock) -> Self {
        arbitrary()
    }
}

/// A candidate block in its versioned envelope. There is one version.
#[derive(Debug, Clone, PartialEq, Eq)]
pub enum VersionedCandidateBlock {
    /// The first version.
    V1(CandidateBlock),
}

impl VersionedCandidateBlock {
    /// The block in the envelope.
    pub open spec fn spec_v1(&self) -> CandidateBlock {
        match *self {
            VersionedCandidateBlock::V1(block) => block,
        }
    }

    /// Convert from `&VersionedCandidateBlock` to V1 reference
    #[inline]
    pub fn as_v1(&self) -> (block: &CandidateBlock)
        ensures
            *block == self.spec_v1(),
    {
        match self {
            Self::V1(v1) => v1,
        }
    }

    /// Convert from `&mut VersionedCandidateBlock` to V1 mutable reference
    #[inline]
    pub fn as_mut_v1(&mut self) -> (block: &mut CandidateBlock)
        ensures
            *block == old(self).spec_v1(),
            *final(self) == VersionedCandidateBlock::V1(*final(block)),
    {
        match self {
            Self::V1(v1) => v1,
        }
    }

    /// Perform the conversion from `VersionedCandidateBlock` to V1
    #[inline]
    pub fn into_v1(self) -> (block: CandidateBlock)
        ensures
            block == self.spec_v1(),
    {
        match self {
            Self::V1(v1) => v1,
        }
    }

    /// Return the header of a valid block
    #[inline]
    pub fn header(&self) -> (header: &BlockHeader)
        ensures
            *header == self.spec_v1().header,
    {
        &self.as_v1().header
    }

    /// Calculate the hash of the current block.
    #[inline]
    pub fn hash<D: Fn(&[u8]) -> hash::Hash>(&self, digest: &D) -> (hash: HashOf<Candidate>)
        requires
            can_digest(*digest, self.spec_v1().header.encoding()),
        ensures
            digests(*digest, self.spec_v1().header.encoding(), hash.hash),
    {
        self.as_v1().hash(digest)
    }

    /// Return the signatures that are verified with the `hash` of this block.
    #[inline]
    pub fn verified_signatures<
        D: Fn(&[u8]) -> hash::Hash,
        V: Fn(&Signature, &hash::Hash) -> bool,
    >(&self, digest: &D, verify: &V) -> (verified: Vec<&Signature>)
        requires
            can_digest(*digest, self.spec_v1().header.encoding()),
            forall|hash: HashOf<Candidate>| #[trigger]
                self.spec_v1().signatures.can_verify(hash, *verify),
        ensures
            exists|hash: HashOf<Candidate>, flags: Seq<bool>|
                digests(*digest, self.spec_v1().header.encoding(), hash.hash)
                    && #[trigger] self.spec_v1().signatures.verified_as(hash, *verify, flags)
                    && verified@.map_values(|signature: &Signature| signature@) == picked(
                    self.spec_v1().signatures@,
                    flags,
                ),
    {
        self.as_v1().verified_signatures(digest, verify)
    }

    /// Revalidate a block against the current state of the world.
    ///
    /// # Errors
    /// Forward errors from [`CandidateBlock::revalidate`]
    #[inline]
    pub fn revalidate<
        V: Fn(&AcceptedTransaction, bool, &WorldStateView) -> Verdict,
        M: Fn(&[hash::Hash]) -> hash::Hash,
    >(
        self,
        transaction_validator: &TransactionValidator<V>,
        merkle: &M,
        wsv: &WorldStateView,
        latest_block: &HashOf<Committed>,
        block_height: u64,
    ) -> (outcome: Result<ValidSignedBlock, RevalidationError>)
        requires
            block_height < u64::MAX,
            self.spec_v1().can_revalidate(*transaction_validator, *wsv),
            can_root(*merkle, hashes(self.spec_v1().transactions@)),
            can_root(*merkle, hashes(self.spec_v1().rejected_transactions@)),
        ensures
            self.spec_v1().revalidates_to(
                *transaction_validator,
                *merkle,
                *wsv,
                *latest_block,
                block_height,
                outcome,
            ),
    {
        self.into_v1().revalidate(transaction_validator, merkle, wsv, latest_block, block_height)
    }
}

impl From<ValidSignedBlock> for VersionedCandidateBlock {
    /// The wire form of a valid signed block, in its envelope.
    fn from(valid_block: ValidSignedBlock) -> (candidate: Self)
        ensures
            candidate.spec_v1().is_wire_form_of(valid_block),
    {
        VersionedCandidateBlock::V1(CandidateBlock::from(valid_block))
    }
}

impl vstd::std_specs::convert::FromSpecImpl<ValidSignedBlock> for VersionedCandidateBlock {
    /// The conversion makes new lists of transactions, so what it gives is
    /// said by `is_wire_form_of` and not by a function of the block.
    open spec fn obeys_from_spec() -> bool {
        false
    }

    open spec fn from_spec(valid_block: ValidSignedBlock) -> Self {
        arbitrary()
    }
}

impl From<VersionedCommittedBlock> for VersionedCandidateBlock {
    /// The wire form of a committed block, in its envelope.
    #[inline]
    fn from(block: VersionedCommittedBlock) -> (candidate: Self)
        ensures
            candidate.spec_v1().is_wire_form_of(block.spec_v1().spec_reopen()),
    {
        VersionedCandidateBlock::V1(CandidateBlock::from(block.into_v1()))
    }
}

impl vstd::std_specs::convert::FromSpecImpl<VersionedCommittedBlock> for VersionedCandidateBlock {
    /// The conversion makes new lists of transactions, so what it gives is
    /// said by `is_wire_form_of` and not by a function of the block.
    open spec fn obeys_from_spec() -> bool {
        false
    }

    open spec fn from_spec(block: VersionedCommittedBlock) -> Self {
        arbitrary()
    }
}

impl From<CandidateBlock> for VersionedCandidateBlock {
    #[inline]
    fn from(block: CandidateBlock) -> (versioned: Self) {
        VersionedCandidateBlock::V1(block)
    }
}

impl vstd::std_specs::convert::FromSpecImpl<CandidateBlock> for VersionedCandidateBlock {
    open spec fn obeys_from_spec() -> bool {
        true
    }

    open spec fn from_spec(block: CandidateBlock) -> Self {
        VersionedCandidateBlock::V1(block)
    }
}

} // verus!
