//! The states of a block, the transitions between them, and revalidation.

use iroha_core::block::{
    BlockValue, ChainedBlock, CommittedBlock, PendingBlock, SignatureCreationError, ValidBlock,
    ValidSignedBlock, VersionedCommittedBlock,
};
use iroha_core::candidate::{
    any_in_blockchain, CandidateBlock, RevalidationCause, RevalidationError,
    VersionedCandidateBlock,
};
use iroha_core::events::{Event, PipelineEntityKind, PipelineEvent, PipelineStatus};
use iroha_core::hash::{self, Committed, EmptyChainHash, HashOf};
use iroha_core::header::{Topology, DEFAULT_CONSENSUS_ESTIMATION_MS};
use iroha_core::signature::{KeyPair, PrivateKey, PublicKey, SignError, Signature};
use iroha_core::transaction::{
    AcceptedTransaction, Executable, RejectedTransaction, RejectionReason, SignedTransaction,
    TransactionLimitError, TransactionLimits, TransactionValidator, ValidTransaction, Verdict,
};
use iroha_core::wsv::WorldStateView;

/// A toy hash function: deterministic, and never the zero hash.
fn digest(bytes: &[u8]) -> hash::Hash {
    let mut state: u64 = 0xcbf2_9ce4_8422_2325;
    for byte in bytes {
        state ^= u64::from(*byte);
        state = state.wrapping_mul(0x0000_0100_0000_01b3);
    }
    let mut out = [0u8; 32];
    for slot in out.iter_mut() {
        state = state.wrapping_mul(0x5851_f42d_4c95_7f2d).wrapping_add(0x1405_7b7e_f767_814f);
        *slot = (state >> 56) as u8;
    }
    out[31] |= 1;
    hash::Hash::prehashed(out)
}

/// A toy Merkle root: the hash of the leaves, one after the other.
fn merkle(leaves: &[hash::Hash]) -> hash::Hash {
    assert!(!leaves.is_empty());
    let mut bytes = Vec::new();
    for leaf in leaves {
        bytes.extend_from_slice(leaf.as_bytes());
    }
    digest(&bytes)
}

/// A toy signature: the private key, then the hash.
fn sign(key_pair: &KeyPair, hash: &hash::Hash) -> Result<Vec<u8>, SignError> {
    let mut payload = key_pair.private_key.bytes.clone();
    payload.extend_from_slice(hash.as_bytes());
    Ok(payload)
}

fn sign_fails(_key_pair: &KeyPair, _hash: &hash::Hash) -> Result<Vec<u8>, SignError> {
    Err(SignError { reason: String::from("no key") })
}

/// Verifies a toy signature.
fn verify(signature: &Signature, hash: &hash::Hash) -> bool {
    let id = signature.public_key.bytes[0];
    let mut expected = vec![id, id];
    expected.extend_from_slice(hash.as_bytes());
    signature.payload == expected
}

fn key_pair(id: u8) -> KeyPair {
    KeyPair {
        public_key: PublicKey { bytes: vec![id] },
        private_key: PrivateKey { bytes: vec![id, id] },
    }
}

fn limits() -> TransactionLimits {
    TransactionLimits { max_instruction_number: 4, max_wasm_size_bytes: 100 }
}

fn transaction(id: u8) -> SignedTransaction {
    SignedTransaction {
        hash: digest(&[id]),
        executable: Executable::Instructions { count: 1 },
        payload: vec![id],
    }
}

fn accepted(id: u8) -> AcceptedTransaction {
    AcceptedTransaction::from_transaction(transaction(id), &limits()).unwrap()
}

fn accept_all(_: &AcceptedTransaction, _: bool, _: &WorldStateView) -> Verdict {
    Verdict::Valid
}

/// Rejects the transactions whose payload starts with an odd byte.
fn reject_odd(transaction: &AcceptedTransaction, _: bool, _: &WorldStateView) -> Verdict {
    if transaction.transaction.payload[0] % 2 == 1 {
        Verdict::Rejected(RejectionReason::NotPermitted)
    } else {
        Verdict::Valid
    }
}

/// Rejects every transaction, in a genesis block for one reason and in any
/// other block for another.
fn reject_by_genesis(_: &AcceptedTransaction, is_genesis: bool, _: &WorldStateView) -> Verdict {
    if is_genesis {
        Verdict::Rejected(RejectionReason::UnexpectedGenesisAccountSignature)
    } else {
        Verdict::Rejected(RejectionReason::Expired)
    }
}

fn zero() -> hash::Hash {
    hash::Hash::zeroed()
}

/// A valid signed block with the transactions 2 and 4 valid and 1 and 3
/// rejected, at `height`, after the block with hash `previous`.
fn signed_block(height: u64, previous: HashOf<Committed>) -> ValidSignedBlock {
    let validator = TransactionValidator::new(limits(), reject_odd);
    PendingBlock::new(7, vec![accepted(1), accepted(2), accepted(3), accepted(4)], Vec::new())
        .chain(height - 1, previous)
        .validate(&validator, &merkle, &WorldStateView::new())
        .sign(key_pair(1), &digest, &sign)
        .unwrap()
}

fn previous() -> HashOf<Committed> {
    digest(b"the block before").typed()
}

#[test]
pub fn committed_and_valid_block_hashes_are_equal() {
    let valid_block = ValidSignedBlock::new_dummy(key_pair(1), &digest, &sign).unwrap();
    let committed_block = valid_block.clone().commit();

    assert_eq!(*valid_block.hash(&digest), *committed_block.hash(&digest))
}

#[test]
fn hash_is_the_hash_of_the_encoded_header_in_every_state() {
    let validator = TransactionValidator::new(limits(), accept_all);
    let chained = PendingBlock::new(3, vec![accepted(1)], Vec::new()).chain_first();
    assert_eq!(*chained.hash(&digest), digest(&chained.header.encode()));
    let valid = chained.validate(&validator, &merkle, &WorldStateView::new());
    let expected = digest(&valid.header.encode());
    assert_eq!(*valid.hash(&digest), expected);
    let signed = valid.sign(key_pair(1), &digest, &sign).unwrap();
    assert_eq!(*signed.hash(&digest), expected);
    let candidate = CandidateBlock::from(signed.clone());
    assert_eq!(*candidate.hash(&digest), expected);
    assert_eq!(*VersionedCandidateBlock::from(candidate).hash(&digest), expected);
    let committed = signed.commit();
    assert_eq!(*committed.hash(&digest), expected);
    assert_eq!(*VersionedCommittedBlock::from(committed.clone()).hash(&digest), expected);
    assert_eq!(*ValidSignedBlock::from(committed).hash(&digest), expected);
}

#[test]
fn pending_block_holds_what_it_was_made_of() {
    let events = vec![Event::Data(vec![1, 2, 3])];
    let pending = PendingBlock::new(42, vec![accepted(1)], events.clone());
    assert_eq!(pending.timestamp, 42);
    assert_eq!(pending.transactions, vec![accepted(1)]);
    assert_eq!(pending.event_recommendations, events);
}

#[test]
fn chain_sets_the_next_height_and_the_previous_hash() {
    let events = vec![Event::Data(vec![9])];
    let chained =
        PendingBlock::new(42, vec![accepted(1), accepted(2)], events.clone()).chain(5, previous());
    assert_eq!(chained.header.timestamp, 42);
    assert_eq!(chained.header.consensus_estimation, DEFAULT_CONSENSUS_ESTIMATION_MS);
    assert_eq!(chained.header.consensus_estimation, 2000);
    assert_eq!(chained.header.height, 6);
    assert_eq!(chained.header.previous_block_hash, previous());
    assert_eq!(*chained.header.transactions_hash, zero());
    assert_eq!(*chained.header.rejected_transactions_hash, zero());
    assert_eq!(chained.header.genesis_topology, None);
    assert!(!chained.header.is_genesis());
    assert_eq!(chained.transactions, vec![accepted(1), accepted(2)]);
    assert_eq!(chained.event_recommendations, events);
}

#[test]
fn chain_first_makes_a_genesis_block() {
    let chained = PendingBlock::new(42, vec![accepted(1)], Vec::new()).chain_first();
    assert_eq!(chained.header.height, 1);
    assert!(chained.header.is_genesis());
    assert_eq!(*chained.header.previous_block_hash, zero());
    assert_eq!(
        chained.header.previous_block_hash,
        HashOf::from(EmptyChainHash::<Committed>::default())
    );
    assert_eq!(*chained.header.transactions_hash, zero());
    assert_eq!(*chained.header.rejected_transactions_hash, zero());
    assert_eq!(chained.header.genesis_topology, None);
    assert_eq!(chained.header.timestamp, 42);
    assert_eq!(chained.header.consensus_estimation, 2000);
}

#[test]
fn chain_first_with_genesis_topology_carries_the_topology() {
    let topology = Topology { encoded: vec![4, 5, 6] };
    let chained = PendingBlock::new(42, vec![accepted(1)], Vec::new())
        .chain_first_with_genesis_topology(topology.clone());
    assert_eq!(chained.header.height, 1);
    assert_eq!(*chained.header.previous_block_hash, zero());
    assert_eq!(chained.header.genesis_topology, Some(topology));
}

#[test]
fn genesis_roundtrip() {
    let validator = TransactionValidator::new(limits(), accept_all);
    let committed = PendingBlock::new(5, vec![accepted(1)], Vec::new())
        .chain_first()
        .validate(&validator, &merkle, &WorldStateView::new())
        .sign(key_pair(1), &digest, &sign)
        .unwrap()
        .commit();
    let h1 = digest(&[1]);
    assert_eq!(committed.header.height, 1);
    assert_eq!(*committed.header.previous_block_hash, zero());
    assert_eq!(*committed.header.transactions_hash, merkle(&[h1]));
    assert_eq!(*committed.header.rejected_transactions_hash, zero());
    assert_eq!(committed.transactions, vec![ValidTransaction { transaction: transaction(1) }]);
    assert!(committed.rejected_transactions.is_empty());
    let block_hash = digest(&committed.header.encode());
    let expected = Signature {
        public_key: PublicKey { bytes: vec![1] },
        payload: sign(&key_pair(1), &block_hash).unwrap(),
    };
    assert_eq!(committed.signatures.signatures(), &vec![expected]);
}

#[test]
fn validate_parts_transactions_in_their_order() {
    let validator = TransactionValidator::new(limits(), reject_odd);
    let events = vec![Event::Data(vec![7])];
    let chained = PendingBlock::new(
        9,
        vec![accepted(1), accepted(2), accepted(3), accepted(4), accepted(6)],
        events.clone(),
    )
    .chain(3, previous());
    let header = chained.header.clone();
    let valid = chained.validate(&validator, &merkle, &WorldStateView::new());
    assert_eq!(
        valid.transactions,
        vec![
            ValidTransaction { transaction: transaction(2) },
            ValidTransaction { transaction: transaction(4) },
            ValidTransaction { transaction: transaction(6) },
        ]
    );
    assert_eq!(
        valid.rejected_transactions,
        vec![
            RejectedTransaction {
                transaction: transaction(1),
                rejection_reason: RejectionReason::NotPermitted,
            },
            RejectedTransaction {
                transaction: transaction(3),
                rejection_reason: RejectionReason::NotPermitted,
            },
        ]
    );
    assert_eq!(
        *valid.header.transactions_hash,
        merkle(&[digest(&[2]), digest(&[4]), digest(&[6])])
    );
    assert_eq!(*valid.header.rejected_transactions_hash, merkle(&[digest(&[1]), digest(&[3])]));
    assert_eq!(valid.header.timestamp, header.timestamp);
    assert_eq!(valid.header.consensus_estimation, header.consensus_estimation);
    assert_eq!(valid.header.height, header.height);
    assert_eq!(valid.header.previous_block_hash, header.previous_block_hash);
    assert_eq!(valid.header.genesis_topology, header.genesis_topology);
    assert_eq!(valid.event_recommendations, events);
}

#[test]
fn validate_tells_the_validator_whether_the_block_is_genesis() {
    let validator = TransactionValidator::new(limits(), reject_by_genesis);
    let genesis = PendingBlock::new(9, vec![accepted(1)], Vec::new()).chain_first().validate(
        &validator,
        &merkle,
        &WorldStateView::new(),
    );
    assert_eq!(
        genesis.rejected_transactions[0].rejection_reason,
        RejectionReason::UnexpectedGenesisAccountSignature
    );
    let later = PendingBlock::new(9, vec![accepted(1)], Vec::new())
        .chain(1, previous())
        .validate(&validator, &merkle, &WorldStateView::new());
    assert_eq!(later.rejected_transactions[0].rejection_reason, RejectionReason::Expired);
}

#[test]
fn validate_of_no_transactions_leaves_zero_roots() {
    let validator = TransactionValidator::new(limits(), accept_all);
    let valid = PendingBlock::new(9, Vec::new(), Vec::new()).chain_first().validate(
        &validator,
        &merkle,
        &WorldStateView::new(),
    );
    assert_eq!(*valid.header.transactions_hash, zero());
    assert_eq!(*valid.header.rejected_transactions_hash, zero());
    assert!(valid.transactions.is_empty());
    assert!(valid.rejected_transactions.is_empty());
}

#[test]
fn validator_judges_one_transaction() {
    let validator = TransactionValidator::new(limits(), reject_odd);
    assert_eq!(validator.transaction_limits, limits());
    assert_eq!(
        validator.validate(accepted(2), false, &WorldStateView::new()),
        Ok(ValidTransaction { transaction: transaction(2) })
    );
    assert_eq!(
        validator.validate(accepted(3), false, &WorldStateView::new()),
        Err(RejectedTransaction {
            transaction: transaction(3),
            rejection_reason: RejectionReason::NotPermitted,
        })
    );
}

#[test]
fn sign_puts_one_signature_under_the_block() {
    let validator = TransactionValidator::new(limits(), reject_odd);
    let valid = PendingBlock::new(9, vec![accepted(1), accepted(2)], vec![Event::Data(vec![1])])
        .chain_first()
        .validate(&validator, &merkle, &WorldStateView::new());
    let signed = valid.clone().sign(key_pair(3), &digest, &sign).unwrap();
    assert_eq!(signed.header, valid.header);
    assert_eq!(signed.transactions, valid.transactions);
    assert_eq!(signed.rejected_transactions, valid.rejected_transactions);
    assert_eq!(signed.event_recommendations, valid.event_recommendations);
    assert_eq!(signed.signatures.len(), 1);
    let mut payload = vec![3, 3];
    payload.extend_from_slice(digest(&valid.header.encode()).as_bytes());
    assert_eq!(
        signed.signatures.signatures(),
        &vec![Signature { public_key: PublicKey { bytes: vec![3] }, payload }]
    );
}

#[test]
fn sign_reports_the_failure_of_the_signer() {
    let valid = ValidBlock {
        header: PendingBlock::new(1, Vec::new(), Vec::new()).chain_first().header,
        rejected_transactions: Vec::new(),
        transactions: Vec::new(),
        event_recommendations: Vec::new(),
    };
    let block_hash = digest(&valid.header.encode());
    let error = valid.sign(key_pair(1), &digest, &sign_fails).unwrap_err();
    assert_eq!(
        error,
        SignatureCreationError {
            block_hash,
            cause: SignError { reason: String::from("no key") },
        }
    );
    let signed = ValidSignedBlock::new_dummy(key_pair(1), &digest, &sign).unwrap();
    let again = signed.clone().sign(key_pair(2), &digest, &sign_fails).unwrap_err();
    assert_eq!(again.block_hash, *signed.hash(&digest));
    assert!(ValidSignedBlock::new_dummy(key_pair(1), &digest, &sign_fails).is_err());
}

#[test]
fn multi_sign() {
    let signed = signed_block(2, previous());
    let block_hash = *signed.hash(&digest);
    assert_eq!(signed.signatures.len(), 1);
    assert!(signed.signatures.contains(&key_pair(1).public_key));

    let again = signed.clone().sign(key_pair(1), &digest, &sign).unwrap();
    assert_eq!(again.signatures, signed.signatures);
    assert_eq!(again, signed);

    let both = again.sign(key_pair(2), &digest, &sign).unwrap();
    assert_eq!(both.signatures.len(), 2);
    assert_eq!(
        both.signatures.signatures(),
        &vec![
            Signature {
                public_key: PublicKey { bytes: vec![1] },
                payload: sign(&key_pair(1), &block_hash).unwrap(),
            },
            Signature {
                public_key: PublicKey { bytes: vec![2] },
                payload: sign(&key_pair(2), &block_hash).unwrap(),
            },
        ]
    );
    assert_eq!(both.header, signed.header);
    assert_eq!(both.transactions, signed.transactions);
    assert_eq!(both.rejected_transactions, signed.rejected_transactions);
    let verified = both.verified_signatures(&digest, &verify);
    assert_eq!(verified.len(), 2);
    assert_eq!(verified[0].public_key.bytes, vec![1]);
    assert_eq!(verified[1].public_key.bytes, vec![2]);
}

#[test]
fn sign_with_a_present_signer_keeps_the_first_signature() {
    let signed = signed_block(2, previous());
    let other = |key_pair: &KeyPair, _: &hash::Hash| -> Result<Vec<u8>, SignError> {
        Ok(vec![key_pair.private_key.bytes[0], 0, 0])
    };
    let again = signed.clone().sign(key_pair(1), &digest, &other).unwrap();
    assert_eq!(again.signatures, signed.signatures);
}

#[test]
fn verified_signatures_leaves_out_what_does_not_verify() {
    let signed = signed_block(2, previous());
    let forged = |key_pair: &KeyPair, _: &hash::Hash| -> Result<Vec<u8>, SignError> {
        Ok(vec![key_pair.private_key.bytes[0], 0, 0])
    };
    let block = signed
        .sign(key_pair(2), &digest, &forged)
        .unwrap()
        .sign(key_pair(3), &digest, &sign)
        .unwrap();
    assert_eq!(block.signatures.len(), 3);
    let verified = block.verified_signatures(&digest, &verify);
    assert_eq!(verified.len(), 2);
    assert_eq!(verified[0].public_key.bytes, vec![1]);
    assert_eq!(verified[1].public_key.bytes, vec![3]);
    let once_more = block.verified_signatures(&digest, &verify);
    assert_eq!(once_more, verified);

    let candidate = CandidateBlock::from(block.clone());
    assert_eq!(candidate.verified_signatures(&digest, &verify).len(), 2);
    let versioned = VersionedCandidateBlock::from(candidate);
    assert_eq!(versioned.verified_signatures(&digest, &verify).len(), 2);
    let committed = block.commit();
    assert_eq!(committed.verified_signatures(&digest, &verify).len(), 2);
    let versioned = VersionedCommittedBlock::from(committed);
    let verified = versioned.verified_signatures(&digest, &verify);
    assert_eq!(verified.len(), 2);
    assert_eq!(verified[1].public_key.bytes, vec![3]);
}

#[test]
fn commit_changes_nothing_but_the_state() {
    let signed = signed_block(2, previous());
    let committed = signed.clone().commit();
    assert_eq!(committed.header, signed.header);
    assert_eq!(committed.transactions, signed.transactions);
    assert_eq!(committed.rejected_transactions, signed.rejected_transactions);
    assert_eq!(committed.event_recommendations, signed.event_recommendations);
    assert_eq!(committed.signatures.signatures(), signed.signatures.signatures());
    assert_eq!(committed.header.encode(), signed.header.encode());
    let reopened = ValidSignedBlock::from(committed);
    assert_eq!(reopened, signed);
}

#[test]
fn new_dummy_is_an_empty_genesis_block() {
    let dummy = ValidSignedBlock::new_dummy(key_pair(1), &digest, &sign).unwrap();
    assert_eq!(dummy.header.timestamp, 0);
    assert_eq!(dummy.header.consensus_estimation, DEFAULT_CONSENSUS_ESTIMATION_MS);
    assert_eq!(dummy.header.height, 1);
    assert_eq!(*dummy.header.previous_block_hash, zero());
    assert_eq!(*dummy.header.transactions_hash, zero());
    assert_eq!(*dummy.header.rejected_transactions_hash, zero());
    assert_eq!(dummy.header.genesis_topology, None);
    assert!(dummy.transactions.is_empty());
    assert!(dummy.rejected_transactions.is_empty());
    assert!(dummy.event_recommendations.is_empty());
    assert_eq!(dummy.signatures.len(), 1);
    assert_eq!(dummy.verified_signatures(&digest, &verify).len(), 1);
}

#[test]
fn events_of_a_valid_signed_block() {
    let signed = signed_block(2, previous());
    let block_hash = *signed.hash(&digest);
    let validating = |hash: hash::Hash| {
        Event::Pipeline(PipelineEvent::new(
            PipelineEntityKind::Transaction,
            PipelineStatus::Validating,
            hash,
        ))
    };
    let expected = vec![
        validating(digest(&[2])),
        validating(digest(&[4])),
        validating(digest(&[1])),
        validating(digest(&[3])),
        Event::Pipeline(PipelineEvent {
            entity_kind: PipelineEntityKind::Block,
            status: PipelineStatus::Validating,
            hash: block_hash,
        }),
    ];
    assert_eq!(signed.events(&digest), expected);
    assert_eq!(signed.events_for_hash(block_hash.typed()), expected);
}

#[test]
fn events_of_a_committed_block() {
    let committed = signed_block(2, previous()).commit();
    let block_hash = *committed.hash(&digest);
    let event = |status: PipelineStatus, hash: hash::Hash| {
        Event::Pipeline(PipelineEvent::new(PipelineEntityKind::Transaction, status, hash))
    };
    let expected = vec![
        event(PipelineStatus::Committed, digest(&[2])),
        event(PipelineStatus::Committed, digest(&[4])),
        event(PipelineStatus::Rejected(RejectionReason::NotPermitted), digest(&[1])),
        event(PipelineStatus::Rejected(RejectionReason::NotPermitted), digest(&[3])),
        Event::Pipeline(PipelineEvent {
            entity_kind: PipelineEntityKind::Block,
            status: PipelineStatus::Committed,
            hash: block_hash,
        }),
    ];
    assert_eq!(committed.events(&digest), expected);
    assert_eq!(committed.events_for_hash(block_hash.typed()), expected);
    assert_eq!(VersionedCommittedBlock::from(committed).events(&digest), expected);
}

#[test]
fn events_of_a_block_without_transactions_is_the_block_event() {
    let dummy = ValidSignedBlock::new_dummy(key_pair(1), &digest, &sign).unwrap();
    let block_hash = *dummy.hash(&digest);
    assert_eq!(
        dummy.events(&digest),
        vec![Event::Pipeline(PipelineEvent {
            entity_kind: PipelineEntityKind::Block,
            status: PipelineStatus::Validating,
            hash: block_hash,
        })]
    );
    assert_eq!(
        dummy.commit().events(&digest),
        vec![Event::Pipeline(PipelineEvent {
            entity_kind: PipelineEntityKind::Block,
            status: PipelineStatus::Committed,
            hash: block_hash,
        })]
    );
}

#[test]
fn into_value_keeps_the_block_without_its_signatures() {
    let mut signed = signed_block(2, previous());
    signed.event_recommendations = vec![Event::Data(vec![1])];
    let committed = signed.commit();
    let block_hash = *committed.hash(&digest);
    let value: BlockValue = VersionedCommittedBlock::from(committed.clone()).into_value(&digest);
    assert_eq!(value.header.timestamp, committed.header.timestamp);
    assert_eq!(value.header.height, 2);
    assert_eq!(value.header.previous_block_hash, *previous());
    assert_eq!(value.header.transactions_hash, committed.header.transactions_hash);
    assert_eq!(
        value.header.rejected_transactions_hash,
        committed.header.rejected_transactions_hash
    );
    assert!(value.header.invalidated_blocks_hashes.is_empty());
    assert_eq!(value.header.current_block_hash, block_hash);
    assert_eq!(value.transactions, committed.transactions);
    assert_eq!(value.rejected_transactions, committed.rejected_transactions);
    assert_eq!(value.event_recommendations, committed.event_recommendations);
    assert_eq!(committed.clone().into_value_for_hash(block_hash.typed()), value);
}

#[test]
fn versioned_committed_block_opens_to_its_block() {
    let committed = signed_block(2, previous()).commit();
    let mut versioned = VersionedCommittedBlock::from(committed.clone());
    assert_eq!(versioned.as_v1(), &committed);
    assert_eq!(versioned.header(), &committed.header);
    versioned.as_mut_v1().header.height = 9;
    assert_eq!(versioned.header().height, 9);
    assert_eq!(versioned.as_v1().transactions, committed.transactions);
    let inner = versioned.into_v1();
    assert_eq!(inner.header.height, 9);
    assert_eq!(inner.signatures, committed.signatures);
}

#[test]
fn versioned_candidate_block_opens_to_its_block() {
    let candidate = CandidateBlock::from(signed_block(2, previous()));
    let mut versioned = VersionedCandidateBlock::from(candidate.clone());
    assert_eq!(versioned.as_v1(), &candidate);
    assert_eq!(versioned.header(), &candidate.header);
    versioned.as_mut_v1().header.height = 9;
    assert_eq!(versioned.header().height, 9);
    let inner = versioned.into_v1();
    assert_eq!(inner.header.height, 9);
    assert_eq!(inner.transactions, candidate.transactions);
}

#[test]
fn candidate_is_the_wire_form_of_a_block() {
    let signed = signed_block(2, previous());
    let candidate = CandidateBlock::from(signed.clone());
    assert_eq!(candidate.header, signed.header);
    assert_eq!(candidate.transactions, vec![transaction(2), transaction(4)]);
    assert_eq!(candidate.rejected_transactions, vec![transaction(1), transaction(3)]);
    assert_eq!(candidate.signatures.signatures(), signed.signatures.signatures());
    assert_eq!(candidate.event_recommendations, signed.event_recommendations);
    assert_eq!(VersionedCandidateBlock::from(signed.clone()).into_v1(), candidate);
    assert_eq!(CandidateBlock::from(signed.clone().commit()), candidate);
    assert_eq!(
        VersionedCandidateBlock::from(VersionedCommittedBlock::from(signed.commit())).into_v1(),
        candidate
    );
}

#[test]
fn candidate_round_trip() {
    let validator = TransactionValidator::new(limits(), reject_odd);
    let signed = signed_block(2, previous())
        .sign(key_pair(2), &digest, &sign)
        .unwrap();
    let back = CandidateBlock::from(signed.clone())
        .revalidate(&validator, &merkle, &WorldStateView::new(), &previous(), 1)
        .unwrap();
    assert_eq!(back.header.encode(), signed.header.encode());
    assert_eq!(back.transactions, signed.transactions);
    assert_eq!(back.rejected_transactions, signed.rejected_transactions);
    assert_eq!(back.signatures, signed.signatures);
    assert_eq!(back, signed);
    let versioned = VersionedCandidateBlock::from(signed.clone())
        .revalidate(&validator, &merkle, &WorldStateView::new(), &previous(), 1)
        .unwrap();
    assert_eq!(versioned, signed);
}

#[test]
fn revalidate_gives_rejected_transactions_the_reason_of_this_peer() {
    let signed = signed_block(2, previous());
    let mut candidate = CandidateBlock::from(signed);
    candidate.transactions = Vec::new();
    candidate.header.transactions_hash = zero().typed();
    let validator = TransactionValidator::new(limits(), reject_by_genesis);
    let back = candidate
        .revalidate(&validator, &merkle, &WorldStateView::new(), &previous(), 1)
        .unwrap();
    assert!(back.transactions.is_empty());
    assert_eq!(
        back.rejected_transactions,
        vec![
            RejectedTransaction {
                transaction: transaction(1),
                rejection_reason: RejectionReason::Expired,
            },
            RejectedTransaction {
                transaction: transaction(3),
                rejection_reason: RejectionReason::Expired,
            },
        ]
    );
}

#[test]
fn revalidate_rejects_an_empty_block() {
    let validator = TransactionValidator::new(limits(), accept_all);
    let candidate = CandidateBlock::from(
        ValidSignedBlock::new_dummy(key_pair(1), &digest, &sign).unwrap(),
    );
    assert!(candidate.is_empty());
    assert_eq!(
        candidate.revalidate(&validator, &merkle, &WorldStateView::new(), &zero().typed(), 0),
        Err(RevalidationError::EmptyBlock)
    );
}

#[test]
fn candidate_with_transactions_is_not_empty() {
    let mut candidate = CandidateBlock::from(signed_block(2, previous()));
    assert!(!candidate.is_empty());
    candidate.transactions = Vec::new();
    assert!(!candidate.is_empty());
    candidate.rejected_transactions = Vec::new();
    assert!(candidate.is_empty());
    candidate.transactions = vec![transaction(1)];
    assert!(!candidate.is_empty());
}

#[test]
fn replay_guard() {
    let validator = TransactionValidator::new(limits(), reject_odd);
    let candidate = CandidateBlock::from(signed_block(2, previous()));
    let mut wsv = WorldStateView::new();
    wsv.add_transaction(digest(&[9]));
    assert!(!candidate.has_committed_transactions(&wsv));
    wsv.add_transaction(digest(&[4]));
    assert!(candidate.has_committed_transactions(&wsv));
    assert_eq!(
        candidate.revalidate(&validator, &merkle, &wsv, &previous(), 1),
        Err(RevalidationError::AlreadyCommitted)
    );
}

#[test]
fn replay_guard_looks_at_rejected_transactions_too() {
    let validator = TransactionValidator::new(limits(), reject_odd);
    let candidate = CandidateBlock::from(signed_block(2, previous()));
    let mut wsv = WorldStateView::new();
    wsv.add_transaction(digest(&[3]));
    assert!(candidate.has_committed_transactions(&wsv));
    assert!(!any_in_blockchain(&candidate.transactions, &wsv));
    assert!(any_in_blockchain(&candidate.rejected_transactions, &wsv));
    assert_eq!(
        candidate.revalidate(&validator, &merkle, &wsv, &previous(), 1),
        Err(RevalidationError::AlreadyCommitted)
    );
}

#[test]
fn candidate_rejected_on_previous_hash_mismatch() {
    let validator = TransactionValidator::new(limits(), reject_odd);
    let candidate = CandidateBlock::from(signed_block(2, previous()));
    let latest: HashOf<Committed> = digest(b"another block").typed();
    assert_eq!(
        candidate.revalidate(&validator, &merkle, &WorldStateView::new(), &latest, 1),
        Err(RevalidationError::PrevHashMismatch { expected: *latest, actual: *previous() })
    );
}

#[test]
fn candidate_rejected_on_height_mismatch() {
    let validator = TransactionValidator::new(limits(), accept_all);
    let b1 = ValidSignedBlock::new_dummy(key_pair(1), &digest, &sign).unwrap().commit();
    let hash_b1 = b1.hash(&digest);
    let signed = PendingBlock::new(8, vec![accepted(2)], Vec::new())
        .chain(1, hash_b1)
        .validate(&validator, &merkle, &WorldStateView::new())
        .sign(key_pair(1), &digest, &sign)
        .unwrap();
    assert_eq!(signed.header.height, 2);
    let candidate = CandidateBlock::from(signed);
    assert_eq!(
        candidate.revalidate(&validator, &merkle, &WorldStateView::new(), &hash_b1, 0),
        Err(RevalidationError::HeightMismatch { expected: 1, actual: 2 })
    );
}

#[test]
fn candidate_rejected_on_merkle_mismatch() {
    let validator = TransactionValidator::new(limits(), reject_odd);
    let mut candidate = CandidateBlock::from(signed_block(2, previous()));
    candidate.header.transactions_hash = digest(b"wrong").typed();
    assert_eq!(
        candidate.revalidate(&validator, &merkle, &WorldStateView::new(), &previous(), 1),
        Err(RevalidationError::TxRootMismatch)
    );
}

#[test]
fn candidate_rejected_on_rejected_merkle_mismatch() {
    let validator = TransactionValidator::new(limits(), reject_odd);
    let mut candidate = CandidateBlock::from(signed_block(2, previous()));
    candidate.header.rejected_transactions_hash = digest(b"wrong").typed();
    assert_eq!(
        candidate.clone().revalidate(&validator, &merkle, &WorldStateView::new(), &previous(), 1),
        Err(RevalidationError::RejectedRootMismatch)
    );
    candidate.header.transactions_hash = digest(b"wrong").typed();
    assert_eq!(
        candidate.revalidate(&validator, &merkle, &WorldStateView::new(), &previous(), 1),
        Err(RevalidationError::TxRootMismatch)
    );
}

#[test]
fn candidate_rejected_when_order_of_transactions_changes() {
    let validator = TransactionValidator::new(limits(), reject_odd);
    let mut candidate = CandidateBlock::from(signed_block(2, previous()));
    candidate.transactions.reverse();
    assert_eq!(
        candidate.revalidate(&validator, &merkle, &WorldStateView::new(), &previous(), 1),
        Err(RevalidationError::TxRootMismatch)
    );
}

#[test]
fn rejected_transactions_root_empty() {
    let validator = TransactionValidator::new(limits(), accept_all);
    let signed = PendingBlock::new(8, vec![accepted(1)], Vec::new())
        .chain(1, previous())
        .validate(&validator, &merkle, &WorldStateView::new())
        .sign(key_pair(1), &digest, &sign)
        .unwrap();
    assert_eq!(*signed.header.rejected_transactions_hash, zero());
    assert!(signed.rejected_transactions.is_empty());
    let back = CandidateBlock::from(signed.clone())
        .revalidate(&validator, &merkle, &WorldStateView::new(), &previous(), 1)
        .unwrap();
    assert_eq!(back, signed);
}

#[test]
fn candidate_with_rejected_transactions_only_revalidates() {
    let reject_all = TransactionValidator::new(limits(), reject_by_genesis);
    let signed = PendingBlock::new(8, vec![accepted(1)], Vec::new())
        .chain(1, previous())
        .validate(&reject_all, &merkle, &WorldStateView::new())
        .sign(key_pair(1), &digest, &sign)
        .unwrap();
    assert_eq!(*signed.header.transactions_hash, zero());
    let back = CandidateBlock::from(signed.clone())
        .revalidate(&reject_all, &merkle, &WorldStateView::new(), &previous(), 1)
        .unwrap();
    assert_eq!(back, signed);
}

#[test]
fn candidate_rejected_when_a_valid_transaction_is_rejected_here() {
    let candidate = CandidateBlock::from(signed_block(2, previous()));
    let validator = TransactionValidator::new(limits(), reject_by_genesis);
    assert_eq!(
        candidate.revalidate(&validator, &merkle, &WorldStateView::new(), &previous(), 1),
        Err(RevalidationError::AcceptedTxRevalidationFailed(RevalidationCause::Rejected(
            RejectionReason::Expired
        )))
    );
}

#[test]
fn candidate_rejected_when_a_valid_transaction_is_over_a_limit() {
    let candidate = CandidateBlock::from(signed_block(2, previous()));
    let tight = TransactionLimits { max_instruction_number: 0, max_wasm_size_bytes: 0 };
    let validator = TransactionValidator::new(tight, reject_odd);
    assert_eq!(
        candidate.revalidate(&validator, &merkle, &WorldStateView::new(), &previous(), 1),
        Err(RevalidationError::AcceptedTxRevalidationFailed(RevalidationCause::Admission(
            TransactionLimitError::TooManyInstructions { count: 1, limit: 0 }
        )))
    );
}

#[test]
fn candidate_rejected_when_a_rejected_transaction_is_over_a_limit() {
    let mut candidate = CandidateBlock::from(signed_block(2, previous()));
    candidate.rejected_transactions[1].executable = Executable::Wasm { size_bytes: 101 };
    let validator = TransactionValidator::new(limits(), reject_odd);
    assert_eq!(
        candidate.revalidate(&validator, &merkle, &WorldStateView::new(), &previous(), 1),
        Err(RevalidationError::TxAdmissionFailed(TransactionLimitError::WasmTooLarge {
            size_bytes: 101,
            limit: 100,
        }))
    );
}

#[test]
fn candidate_rejected_when_a_rejected_transaction_is_valid_here() {
    let mut candidate = CandidateBlock::from(signed_block(2, previous()));
    candidate.transactions = Vec::new();
    candidate.header.transactions_hash = zero().typed();
    let validator = TransactionValidator::new(limits(), accept_all);
    assert_eq!(
        candidate.revalidate(&validator, &merkle, &WorldStateView::new(), &previous(), 1),
        Err(RevalidationError::RejectedTxRevalidatesClean)
    );
}

#[test]
fn revalidate_checks_in_order() {
    let validator = TransactionValidator::new(limits(), reject_by_genesis);
    let mut candidate = CandidateBlock::from(signed_block(2, previous()));
    candidate.header.transactions_hash = digest(b"wrong").typed();
    let mut wsv = WorldStateView::new();
    wsv.add_transaction(digest(&[2]));
    let latest: HashOf<Committed> = digest(b"another block").typed();
    // Committed transactions, a wrong previous hash, a wrong height, a wrong root.
    assert_eq!(
        candidate.check_structure(&wsv, &latest, 7),
        Err(RevalidationError::AlreadyCommitted)
    );
    assert_eq!(
        candidate.clone().revalidate(&validator, &merkle, &wsv, &latest, 7),
        Err(RevalidationError::AlreadyCommitted)
    );
    // A wrong previous hash, a wrong height, a wrong root.
    assert_eq!(
        candidate.clone().revalidate(&validator, &merkle, &WorldStateView::new(), &latest, 7),
        Err(RevalidationError::PrevHashMismatch { expected: *latest, actual: *previous() })
    );
    // A wrong height, a wrong root.
    assert_eq!(
        candidate.check_structure(&WorldStateView::new(), &previous(), 7),
        Err(RevalidationError::HeightMismatch { expected: 8, actual: 2 })
    );
    assert_eq!(
        candidate.clone().revalidate(&validator, &merkle, &WorldStateView::new(), &previous(), 7),
        Err(RevalidationError::HeightMismatch { expected: 8, actual: 2 })
    );
    // A wrong root.
    assert_eq!(candidate.check_structure(&WorldStateView::new(), &previous(), 1), Ok(()));
    assert_eq!(
        candidate.revalidate(&validator, &merkle, &WorldStateView::new(), &previous(), 1),
        Err(RevalidationError::TxRootMismatch)
    );
}

#[test]
fn revalidate_tells_the_validator_whether_the_block_is_genesis() {
    let reject_all = TransactionValidator::new(limits(), reject_by_genesis);
    let signed = PendingBlock::new(8, vec![accepted(1)], Vec::new())
        .chain_first()
        .validate(&reject_all, &merkle, &WorldStateView::new())
        .sign(key_pair(1), &digest, &sign)
        .unwrap();
    let back = CandidateBlock::from(signed)
        .revalidate(&reject_all, &merkle, &WorldStateView::new(), &zero().typed(), 0)
        .unwrap();
    assert_eq!(
        back.rejected_transactions[0].rejection_reason,
        RejectionReason::UnexpectedGenesisAccountSignature
    );
}

#[test]
fn chained_block_can_be_built_by_hand() {
    let header = PendingBlock::new(1, Vec::new(), Vec::new()).chain(0, previous()).header;
    let chained = ChainedBlock {
        header: header.clone(),
        transactions: vec![accepted(2)],
        event_recommendations: Vec::new(),
    };
    let committed = CommittedBlock {
        header,
        rejected_transactions: Vec::new(),
        transactions: Vec::new(),
        event_recommendations: Vec::new(),
        signatures: ValidSignedBlock::new_dummy(key_pair(1), &digest, &sign)
            .unwrap()
            .signatures
            .transmute(),
    };
    assert_eq!(*chained.hash(&digest), *committed.hash(&digest));
}

#[test]
fn root_checks_compare_with_the_header() {
    let candidate = CandidateBlock::from(signed_block(2, previous()));
    let valid_root = merkle(&[digest(&[2]), digest(&[4])]);
    let rejected_root = merkle(&[digest(&[1]), digest(&[3])]);
    assert_eq!(candidate.check_transactions_root(&valid_root), Ok(()));
    assert_eq!(
        candidate.check_transactions_root(&rejected_root),
        Err(RevalidationError::TxRootMismatch)
    );
    assert_eq!(candidate.check_rejected_transactions_root(&rejected_root), Ok(()));
    assert_eq!(
        candidate.check_rejected_transactions_root(&zero()),
        Err(RevalidationError::RejectedRootMismatch)
    );
}

#[test]
fn judged_again_transactions_stay_or_fail_the_block() {
    let valid = ValidTransaction { transaction: transaction(2) };
    let rejected = RejectedTransaction {
        transaction: transaction(3),
        rejection_reason: RejectionReason::WasmExecution,
    };
    assert_eq!(CandidateBlock::expect_valid(Ok(valid.clone())), Ok(valid.clone()));
    assert_eq!(
        CandidateBlock::expect_valid(Err(rejected.clone())),
        Err(RevalidationError::AcceptedTxRevalidationFailed(RevalidationCause::Rejected(
            RejectionReason::WasmExecution
        )))
    );
    assert_eq!(CandidateBlock::expect_rejected(Err(rejected.clone())), Ok(rejected));
    assert_eq!(
        CandidateBlock::expect_rejected(Ok(valid)),
        Err(RevalidationError::RejectedTxRevalidatesClean)
    );
}

#[test]
fn genesis_predicate_holds_along_the_states() {
    let validator = TransactionValidator::new(limits(), reject_odd);
    let first = PendingBlock::new(1, vec![accepted(1), accepted(2)], Vec::new()).chain_first();
    assert!(first.header.is_genesis());
    assert_eq!(*first.header.previous_block_hash, zero());
    let valid = first.validate(&validator, &merkle, &WorldStateView::new());
    assert_eq!(valid.header.height == 1, *valid.header.previous_block_hash == zero());
    let committed = valid.sign(key_pair(1), &digest, &sign).unwrap().commit();
    assert_eq!(committed.header.height, 1);
    assert_eq!(*committed.header.previous_block_hash, zero());

    let later = signed_block(4, previous()).commit();
    assert_eq!(later.header.height, 4);
    assert!(!later.header.is_genesis());
    assert_ne!(*later.header.previous_block_hash, zero());
}
