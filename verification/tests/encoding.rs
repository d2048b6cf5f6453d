//! Hashes and the byte encoding of the header.

use iroha_core::codec::{append, copy_bytes, same_bytes};
use iroha_core::collaborator::{hash_of_bytes, merkle_root};
use iroha_core::hash::{self, Committed, EmptyChainHash, HashOf, MerkleRoot, Valid, HASH_LENGTH};
use iroha_core::header::{
    BlockHeader, Topology, DEFAULT_BLOCK_TIME_MS, DEFAULT_COMMIT_TIME_LIMIT_MS,
    DEFAULT_CONSENSUS_ESTIMATION_MS,
};

fn header() -> BlockHeader {
    BlockHeader {
        timestamp: 0x0102_0304_0506_0708_090a_0b0c_0d0e_0f10,
        consensus_estimation: 2000,
        height: 258,
        previous_block_hash: hash::Hash::prehashed([0xaa; 32]).typed(),
        transactions_hash: hash::Hash::prehashed([0xbb; 32]).typed(),
        rejected_transactions_hash: hash::Hash::prehashed([0xcc; 32]).typed(),
        genesis_topology: None,
    }
}

fn encoded_without_topology() -> Vec<u8> {
    let mut expected = vec![
        0x10, 0x0f, 0x0e, 0x0d, 0x0c, 0x0b, 0x0a, 0x09, 0x08, 0x07, 0x06, 0x05, 0x04, 0x03, 0x02,
        0x01,
    ];
    expected.extend_from_slice(&[0xd0, 0x07, 0, 0, 0, 0, 0, 0]);
    expected.extend_from_slice(&[0x02, 0x01, 0, 0, 0, 0, 0, 0]);
    expected.extend_from_slice(&[0xaa; 32]);
    expected.extend_from_slice(&[0xbb; 32]);
    expected.extend_from_slice(&[0xcc; 32]);
    expected
}

#[test]
fn header_encodes_its_fields_in_order() {
    let mut expected = encoded_without_topology();
    expected.push(0);
    let encoded = header().encode();
    assert_eq!(encoded.len(), 129);
    assert_eq!(encoded, expected);
}

#[test]
fn header_encodes_the_topology_after_a_one() {
    let mut with_topology = header();
    with_topology.genesis_topology = Some(Topology { encoded: vec![9, 8, 7] });
    let mut expected = encoded_without_topology();
    expected.extend_from_slice(&[1, 9, 8, 7]);
    assert_eq!(with_topology.encode(), expected);
}

#[test]
fn header_encodes_the_largest_integers() {
    let mut largest = header();
    largest.timestamp = u128::MAX;
    largest.consensus_estimation = u64::MAX;
    largest.height = u64::MAX - 1;
    let encoded = largest.encode();
    assert_eq!(encoded[..16], [0xff; 16]);
    assert_eq!(encoded[16..24], [0xff; 8]);
    assert_eq!(encoded[24..32], [0xfe, 0xff, 0xff, 0xff, 0xff, 0xff, 0xff, 0xff]);
}

#[test]
fn header_encodes_zero_as_zero_bytes() {
    let zero = BlockHeader {
        timestamp: 0,
        consensus_estimation: 0,
        height: 0,
        previous_block_hash: hash::Hash::zeroed().typed(),
        transactions_hash: hash::Hash::zeroed().typed(),
        rejected_transactions_hash: hash::Hash::zeroed().typed(),
        genesis_topology: None,
    };
    assert_eq!(zero.encode(), vec![0u8; 129]);
}

#[test]
fn headers_that_differ_encode_differently() {
    let first = header();
    let mut second = header();
    second.height = 259;
    assert_ne!(first.encode(), second.encode());
    let mut third = header();
    third.rejected_transactions_hash = hash::Hash::prehashed([0xcd; 32]).typed();
    assert_ne!(first.encode(), third.encode());
}

#[test]
fn is_genesis_is_height_one() {
    let mut genesis = header();
    genesis.height = 1;
    assert!(genesis.is_genesis());
    assert!(!header().is_genesis());
    genesis.height = 0;
    assert!(!genesis.is_genesis());
    genesis.height = 2;
    assert!(!genesis.is_genesis());
}

#[test]
fn with_roots_sets_the_roots_only() {
    let transactions: HashOf<MerkleRoot> = hash::Hash::prehashed([1; 32]).typed();
    let rejected: HashOf<MerkleRoot> = hash::Hash::prehashed([2; 32]).typed();
    let updated = header().with_roots(transactions, rejected);
    let mut expected = header();
    expected.transactions_hash = transactions;
    expected.rejected_transactions_hash = rejected;
    assert_eq!(updated, expected);
}

#[test]
fn default_consensus_estimation_is_block_time_plus_half_the_commit_time() {
    assert_eq!(DEFAULT_BLOCK_TIME_MS, 1000);
    assert_eq!(DEFAULT_COMMIT_TIME_LIMIT_MS, 2000);
    assert_eq!(DEFAULT_CONSENSUS_ESTIMATION_MS, 2000);
}

#[test]
fn zeroed_hash_is_all_zero() {
    assert_eq!(HASH_LENGTH, 32);
    assert_eq!(hash::Hash::zeroed().as_bytes(), &[0u8; 32]);
    assert_eq!(hash::Hash::zeroed(), hash::Hash::prehashed([0; 32]));
}

#[test]
fn hashes_are_equal_when_their_bytes_are() {
    let mut bytes = [7u8; 32];
    let first = hash::Hash::prehashed(bytes);
    assert_eq!(first, hash::Hash::prehashed([7; 32]));
    assert_eq!(first.as_bytes(), &bytes);
    bytes[31] = 8;
    assert_ne!(first, hash::Hash::prehashed(bytes));
    bytes = [7u8; 32];
    bytes[0] = 6;
    assert_ne!(first, hash::Hash::prehashed(bytes));
}

#[test]
fn retyping_a_hash_keeps_its_bytes() {
    let untyped = hash::Hash::prehashed([5; 32]);
    let typed: HashOf<Valid> = untyped.typed();
    assert_eq!(*typed, untyped);
    assert_eq!(typed.untyped(), untyped);
    let retyped: HashOf<Committed> = typed.transmute();
    assert_eq!(*retyped, untyped);
    assert_eq!(retyped.hash.bytes, [5; 32]);
    let copy = retyped;
    assert_eq!(copy, retyped.clone());
}

#[test]
fn empty_chain_hash_is_the_zero_hash() {
    let empty: HashOf<Committed> = EmptyChainHash::default().into();
    assert_eq!(*empty, hash::Hash::zeroed());
    let marker = EmptyChainHash::<Committed>::default();
    let copy = marker;
    assert_eq!(*HashOf::from(copy.clone()), hash::Hash::zeroed());
}

#[test]
fn hash_of_bytes_asks_the_digest() {
    let first_byte = |bytes: &[u8]| hash::Hash::prehashed([bytes[0]; 32]);
    assert_eq!(hash_of_bytes(&vec![3, 4, 5], &first_byte), hash::Hash::prehashed([3; 32]));
    let length = |bytes: &[u8]| hash::Hash::prehashed([bytes.len() as u8; 32]);
    assert_eq!(hash_of_bytes(&Vec::new(), &length), hash::Hash::zeroed());
    assert_eq!(hash_of_bytes(&header().encode(), &length), hash::Hash::prehashed([129; 32]));
}

#[test]
fn merkle_root_of_no_leaves_is_zero() {
    let never = |_: &[hash::Hash]| -> hash::Hash { panic!("asked for the root of no leaves") };
    assert_eq!(merkle_root(&Vec::new(), &never), hash::Hash::zeroed());
    let last = |leaves: &[hash::Hash]| leaves[leaves.len() - 1];
    let leaves = vec![hash::Hash::prehashed([1; 32]), hash::Hash::prehashed([2; 32])];
    assert_eq!(merkle_root(&leaves, &last), hash::Hash::prehashed([2; 32]));
}

#[test]
fn byte_helpers() {
    let mut bytes = vec![1, 2];
    append(&mut bytes, &vec![3, 4, 5]);
    assert_eq!(bytes, vec![1, 2, 3, 4, 5]);
    append(&mut bytes, &Vec::new());
    assert_eq!(bytes, vec![1, 2, 3, 4, 5]);
    assert_eq!(copy_bytes(&bytes), bytes);
    assert!(same_bytes(&bytes, &vec![1, 2, 3, 4, 5]));
    assert!(!same_bytes(&bytes, &vec![1, 2, 3, 4]));
    assert!(!same_bytes(&bytes, &vec![1, 2, 3, 4, 6]));
    assert!(same_bytes(&Vec::new(), &Vec::new()));
}
