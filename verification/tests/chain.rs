//! The chain of committed blocks and its iterator.

use iroha_core::block::{CommittedBlock, ValidSignedBlock, VersionedCommittedBlock};
use iroha_core::chain::{Chain, ChainEntry, ChainIterator};
use iroha_core::hash;
use iroha_core::signature::{KeyPair, PrivateKey, PublicKey, SignError};

/// A toy hash function: deterministic, and never the zero hash.
fn digest(bytes: &[u8]) -> hash::Hash {
    let mut state: u64 = 0xcbf2_9ce4_8422_2325;
    for byte in bytes {
        state ^= u64::from(*byte);
        state = state.wrapping_mul(0x0000_0100_0000_01b3);
    }
    let mut out = [0u8; 32];
    for slot in out.iter_mut() {
        state = state.wrapping_mul(0x5851_f42d_4c95_7f2d).wrapping_add(0x1405_7b7e_f767_814f);
        *slot = (state >> 56) as u8;
    }
    out[31] |= 1;
    hash::Hash::prehashed(out)
}

/// A toy signature: the private key, then the hash.
fn sign(key_pair: &KeyPair, hash: &hash::Hash) -> Result<Vec<u8>, SignError> {
    let mut payload = key_pair.private_key.bytes.clone();
    payload.extend_from_slice(hash.as_bytes());
    Ok(payload)
}

fn key_pair(id: u8) -> KeyPair {
    KeyPair {
        public_key: PublicKey { bytes: vec![id] },
        private_key: PrivateKey { bytes: vec![id, id] },
    }
}

fn dummy_committed() -> CommittedBlock {
    ValidSignedBlock::new_dummy(key_pair(1), &digest, &sign).unwrap().commit()
}

fn chain_of(block_count: usize) -> Chain {
    let mut chain = Chain::new();
    let mut block = dummy_committed();
    for i in 1..=block_count {
        block.header.height = i as u64;
        chain.push(block.clone().into());
    }
    chain
}

/// The chain iterator under the iterator traits of the standard library.
struct Blocks<'itm>(ChainIterator<'itm>);

impl<'itm> Iterator for Blocks<'itm> {
    type Item = ChainEntry;

    fn next(&mut self) -> Option<Self::Item> {
        self.0.next()
    }

    fn nth(&mut self, n: usize) -> Option<Self::Item> {
        self.0.nth(n)
    }

    fn last(self) -> Option<Self::Item> {
        self.0.last()
    }

    fn count(self) -> usize {
        self.0.count()
    }

    fn size_hint(&self) -> (usize, Option<usize>) {
        self.0.size_hint()
    }
}

impl<'itm> DoubleEndedIterator for Blocks<'itm> {
    fn next_back(&mut self) -> Option<Self::Item> {
        self.0.next_back()
    }

    fn nth_back(&mut self, n: usize) -> Option<Self::Item> {
        self.0.nth_back(n)
    }
}

#[test]
pub fn chain_iter_returns_blocks_ordered() {
    const BLOCK_COUNT: usize = 10;
    let mut chain = Chain::new();

    let mut block = ValidSignedBlock::new_dummy(key_pair(1), &digest, &sign).unwrap().commit();

    for i in 1..=BLOCK_COUNT {
        block.header.height = i as u64;
        chain.push(block.clone().into());
    }

    assert_eq!(
        (BLOCK_COUNT - 5..=BLOCK_COUNT).map(|i| i as u64).collect::<Vec<_>>(),
        Blocks(chain.iter())
            .skip(BLOCK_COUNT - 6)
            .map(|b| *b.key())
            .collect::<Vec<_>>()
    );

    assert_eq!(BLOCK_COUNT - 2, Blocks(chain.iter()).skip(2).count());
    assert_eq!(3, *Blocks(chain.iter()).nth(2).unwrap().key());
}

#[test]
pub fn chain_rev_iter_returns_blocks_ordered() {
    const BLOCK_COUNT: usize = 10;
    let mut chain = Chain::new();

    let mut block = ValidSignedBlock::new_dummy(key_pair(1), &digest, &sign).unwrap().commit();

    for i in 1..=BLOCK_COUNT {
        block.header.height = i as u64;
        chain.push(block.clone().into());
    }

    assert_eq!(
        (1..=BLOCK_COUNT - 4).rev().map(|i| i as u64).collect::<Vec<_>>(),
        Blocks(chain.iter())
            .rev()
            .skip(BLOCK_COUNT - 6)
            .map(|b| *b.key())
            .collect::<Vec<_>>()
    );

    assert_eq!(
        (BLOCK_COUNT - 2) as u64,
        *Blocks(chain.iter()).nth_back(2).unwrap().key()
    );
}

#[test]
fn new_chain_is_empty() {
    let chain = Chain::new();
    assert!(chain.is_empty());
    assert_eq!(chain.len(), 0);
    assert!(chain.latest_block().is_none());
    assert!(chain.iter().next().is_none());
    assert_eq!(chain.iter().count(), 0);
    assert_eq!(chain.iter().size_hint(), (0, Some(0)));
    let default_chain = Chain::default();
    assert!(default_chain.is_empty());
}

#[test]
fn push_puts_block_at_its_height() {
    let mut chain = Chain::new();
    let mut block = dummy_committed();
    block.header.height = 1;
    block.header.timestamp = 11;
    chain.push(block.clone().into());
    assert!(!chain.is_empty());
    assert_eq!(chain.len(), 1);
    let entry = chain.get(1).unwrap();
    assert_eq!(*entry.key(), 1);
    assert_eq!(*entry.value(), VersionedCommittedBlock::V1(block));
    assert!(chain.get(2).is_none());
}

#[test]
fn push_at_an_occupied_height_replaces_the_block() {
    let mut chain = Chain::new();
    let mut block = dummy_committed();
    block.header.height = 1;
    block.header.timestamp = 1;
    chain.push(block.clone().into());
    block.header.timestamp = 2;
    chain.push(block.clone().into());
    assert_eq!(chain.len(), 1);
    assert_eq!(chain.get(1).unwrap().value().as_v1().header.timestamp, 2);
}

#[test]
fn three_blocks_chain_in_order() {
    let b1 = {
        let mut block = dummy_committed();
        block.header.height = 1;
        block
    };
    let b2 = {
        let mut block = dummy_committed();
        block.header.height = 2;
        block.header.previous_block_hash = b1.hash(&digest).transmute();
        block
    };
    let b3 = {
        let mut block = dummy_committed();
        block.header.height = 3;
        block.header.previous_block_hash = b2.hash(&digest).transmute();
        block
    };
    let mut chain = Chain::new();
    chain.push(b1.clone().into());
    chain.push(b2.clone().into());
    chain.push(b3.clone().into());

    assert_eq!(chain.len(), 3);
    let latest = chain.latest_block().unwrap();
    assert_eq!(*latest.key(), 3);
    assert_eq!(latest.value().header().height, 3);
    assert_eq!(
        Blocks(chain.iter()).map(|b| b.value).collect::<Vec<_>>(),
        vec![
            VersionedCommittedBlock::V1(b1.clone()),
            VersionedCommittedBlock::V1(b2.clone()),
            VersionedCommittedBlock::V1(b3.clone()),
        ]
    );
    assert_eq!(
        Blocks(chain.iter()).rev().map(|b| b.value).collect::<Vec<_>>(),
        vec![
            VersionedCommittedBlock::V1(b3),
            VersionedCommittedBlock::V1(b2),
            VersionedCommittedBlock::V1(b1),
        ]
    );
}

#[test]
fn nth_yields_heights_in_ascending_order() {
    let chain = chain_of(7);
    for i in 0..7 {
        assert_eq!(*chain.iter().nth(i).unwrap().key(), i as u64 + 1);
    }
    assert!(chain.iter().nth(7).is_none());
}

#[test]
fn nth_back_yields_heights_in_descending_order() {
    let chain = chain_of(7);
    for i in 0..7 {
        assert_eq!(*chain.iter().nth_back(i).unwrap().key(), 7 - i as u64);
    }
    assert!(chain.iter().nth_back(7).is_none());
}

#[test]
fn skip_then_count_is_what_is_left() {
    let chain = chain_of(5);
    assert_eq!(chain.iter().skip(0).count(), 5);
    assert_eq!(chain.iter().skip(3).count(), 2);
    assert_eq!(chain.iter().skip(5).count(), 0);
    assert_eq!(chain.iter().skip(9).count(), 0);
    assert_eq!(Blocks(chain.iter()).skip(9).count(), 0);
    assert_eq!(chain.iter().skip(3).size_hint(), (2, Some(2)));
    assert_eq!(chain.iter().size_hint(), (5, Some(5)));
}

#[test]
fn iterator_meets_in_the_middle() {
    let chain = chain_of(3);
    let mut iterator = chain.iter();
    assert_eq!(*iterator.next().unwrap().key(), 1);
    assert_eq!(*iterator.next_back().unwrap().key(), 3);
    assert_eq!(*iterator.next().unwrap().key(), 2);
    assert!(iterator.next().is_none());
    assert!(iterator.next_back().is_none());
    assert_eq!(iterator.count(), 0);
}

#[test]
fn nth_past_the_end_exhausts_the_iterator() {
    let chain = chain_of(3);
    let mut iterator = chain.iter();
    assert!(iterator.nth(usize::MAX).is_none());
    assert!(iterator.next().is_none());
    let mut from_back = chain.iter();
    assert!(from_back.nth_back(3).is_none());
    assert!(from_back.next_back().is_none());
}

#[test]
fn last_is_the_latest_block() {
    let chain = chain_of(4);
    assert_eq!(*chain.iter().last().unwrap().key(), 4);
    assert_eq!(*Blocks(chain.iter()).last().unwrap().key(), 4);
    assert!(Chain::new().iter().last().is_none());
}

#[test]
fn latest_block_of_a_sparse_chain_is_the_one_at_the_length() {
    let mut chain = Chain::new();
    let mut block = dummy_committed();
    block.header.height = 5;
    chain.push(block.into());
    assert_eq!(chain.len(), 1);
    assert!(chain.latest_block().is_none());
    assert!(chain.iter().next().is_none());
}
