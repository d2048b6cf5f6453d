//! The blockchain in memory: committed blocks by height, and the iterator
//! that walks them in the order of their heights.

use crate::block::VersionedCommittedBlock;
use dashmap::DashMap;
use std::collections::hash_map::RandomState;
use vstd::prelude::*;

verus! {

/// `dashmap::DashMap`, declared as a type of which nothing inside is seen.
/// What a map holds is spoken of through `map_entries` alone.
#[verifier::external_type_specification]
#[verifier::external_body]
#[verifier::reject_recursive_types(K)]
#[verifier::reject_recursive_types(V)]
#[verifier::reject_recursive_types(S)]
pub struct ExDashMap<K, V, S>(DashMap<K, V, S>);

/// What a map of blocks holds: the block at each height that has one. The
/// functions below say of each call into `dashmap` what it does to this.
pub uninterp spec fn map_entries(
    map: DashMap<u64, VersionedCommittedBlock, RandomState>,
) -> Map<u64, VersionedCommittedBlock>;

/// A map without blocks, by `DashMap::new`.
///
/// Trusted: the new map holds nothing, at no height.
#[verifier::external_body]
fn map_new() -> (fresh: DashMap<u64, VersionedCommittedBlock, RandomState>)
    ensures
        forall|height: u64| !map_entries(fresh).contains_key(height),
{
    DashMap::new()
}

/// Puts `block` at `height`, by `DashMap::insert`.
///
/// Trusted: afterwards the map holds `block` at `height` and is unchanged at
/// every other height, and what comes back is the block that was at
/// `height` before, if there was one. The map is taken by `&mut`, though the
/// outside function asks for less, so that no call can see it change
/// underneath.
#[verifier::external_body]
fn map_insert(
    map: &mut DashMap<u64, VersionedCommittedBlock, RandomState>,
    height: u64,
    block: VersionedCommittedBlock,
) -> (previous: Option<VersionedCommittedBlock>)
    ensures
        map_entries(*final(map)) == map_entries(*old(map)).insert(height, block),
        previous == if map_entries(*old(map)).contains_key(height) {
            Some(map_entries(*old(map))[height])
        } else {
            None
        },
{
    map.insert(height, block)
}

/// A copy of the block at `height`, by `DashMap::get`.
///
/// Trusted: what comes back is the block that the map holds at `height`, and
/// nothing where it holds none there.
#[verifier::external_body]
fn map_get(map: &DashMap<u64, VersionedCommittedBlock, RandomState>, height: u64) -> (found:
    Option<VersionedCommittedBlock>)
    ensures
        found == if map_entries(*map).contains_key(height) {
            Some(map_entries(*map)[height])
        } else {
            None
        },
{
    map.get(&height).map(|entry| entry.value().clone())
}

/// Number of blocks in the map, by `DashMap::len`.
///
/// Trusted: the result is the number of heights at which the map holds a
/// block.
#[verifier::external_body]
fn map_len(map: &DashMap<u64, VersionedCommittedBlock, RandomState>) -> (count: usize)
    ensures
        count == map_entries(*map).len(),
{
    map.len()
}

/// Whether the map holds no block, by `DashMap::is_empty`.
///
/// Trusted: the outside function compares the number of blocks with zero.
#[verifier::external_body]
fn map_is_empty(map: &DashMap<u64, VersionedCommittedBlock, RandomState>) -> (empty: bool)
    ensures
        empty == (map_entries(*map).len() == 0),
{
    map.is_empty()
}

/// A block of the chain with its height.
#[derive(Debug, Clone, PartialEq, Eq)]
pub struct ChainEntry {
    /// The height.
    pub key: u64,
    /// The block.
    pub value: VersionedCommittedBlock,
}

impl ChainEntry {
    /// The height of the block.
    #[inline]
    pub fn key(&self) -> (key: &u64)
        ensures
            *key == self.key,
    {
        &self.key
    }

    /// The block.
    #[inline]
    pub fn value(&self) -> (value: &VersionedCommittedBlock)
        ensures
            *value == self.value,
    {
        &self.value
    }
}

/// What `blocks` holds at `height`, with the height.
pub open spec fn entry_at(blocks: Map<u64, VersionedCommittedBlock>, height: u64) -> Option<
    ChainEntry,
> {
    if blocks.contains_key(height) {
        Some(ChainEntry { key: height, value: blocks[height] })
    } else {
        None
    }
}

/// The heights from `first` on, `count` of them, in ascending order.
pub open spec fn heights_from(first: int, count: nat) -> Seq<u64> {
    Seq::new(count, |i: int| (first + i) as u64)
}

/// What an iterator over `blocks` that has `heights` yet to visit yields
/// when it passes over `n` of them from the low end: the block at the next
/// height, if there is a next height and the chain holds a block there.
pub open spec fn nth_of(
    blocks: Map<u64, VersionedCommittedBlock>,
    heights: Seq<u64>,
    n: nat,
) -> Option<ChainEntry> {
    if n < heights.len() {
        entry_at(blocks, heights[n as int])
    } else {
        None
    }
}

/// What an iterator over `blocks` that has `heights` yet to visit yields
/// when it passes over `n` of them from the high end: the block at the next
/// height down, if there is one and the chain holds a block there.
pub open spec fn nth_back_of(
    blocks: Map<u64, VersionedCommittedBlock>,
    heights: Seq<u64>,
    n: nat,
) -> Option<ChainEntry> {
    if n < heights.len() {
        entry_at(blocks, heights[heights.len() - 1 - n])
    } else {
        None
    }
}

/// `heights` without its first `count` heights: nothing where it holds no
/// more than `count`.
pub open spec fn without_first(heights: Seq<u64>, count: nat) -> Seq<u64> {
    if count >= heights.len() {
        Seq::empty()
    } else {
        heights.skip(count as int)
    }
}

/// Blockchain: the committed blocks by height.
///
/// The chain has one writer at a time, which `push` asks for by taking the
/// chain by `&mut`. It does not hold the heights to be without gaps: a block
/// goes where its header says. Readers get copies of blocks, so nothing of
/// the chain stays locked between two calls.
pub struct Chain {
    blocks: DashMap<u64, VersionedCommittedBlock, RandomState>,
}

impl View for Chain {
    type V = Map<u64, VersionedCommittedBlock>;

    closed spec fn view(&self) -> Map<u64, VersionedCommittedBlock> {
        map_entries(self.blocks)
    }
}

impl Chain {
    /// Whether the chain holds a block at each height from 1 to the number
    /// of its blocks, and at no other.
    pub open spec fn is_dense(&self) -> bool {
        &&& self@.dom().finite()
        &&& self@.len() <= u64::MAX
        &&& forall|height: u64| self@.contains_key(height) <==> 1 <= height <= self@.len()
    }

    /// The heights that a new iterator over the chain has yet to visit: from
    /// 1 to the number of blocks.
    pub open spec fn spec_iter(&self) -> Seq<u64> {
        heights_from(1, self@.len())
    }

    /// Constructor.
    #[inline]
    pub fn new() -> (chain: Self)
        ensures
            chain@ =~= Map::empty(),
            chain.is_dense(),
    {
        let chain = Chain { blocks: map_new() };
        assert(chain@ =~= Map::empty());
        chain
    }

    /// Push latest block. The block goes to the height that its header
    /// gives; a block that was there before is replaced.
    pub fn push(&mut self, block: VersionedCommittedBlock)
        ensures
            final(self)@ == old(self)@.insert(block.spec_v1().header.height, block),
            old(self)@.dom().finite() ==> final(self)@.dom().finite() && final(self)@.len()
                >= old(self)@.len(),
            old(self).is_dense() && block.spec_v1().header.height == old(self)@.len() + 1
                ==> final(self).is_dense() && final(self)@.len() == old(self)@.len() + 1,
    {
        let height = block.as_v1().header.height;
        let _ = map_insert(&mut self.blocks, height, block);
        proof {
            if old(self).is_dense() && height == old(self)@.len() + 1 {
                assert(!old(self)@.contains_key(height));
                assert(self@.dom() =~= old(self)@.dom().insert(height));
            }
        }
    }

    /// Iterator over height and block.
    pub fn iter(&self) -> (iterator: ChainIterator<'_>)
        ensures
            iterator.chain() == self@,
            iterator@ == self.spec_iter(),
    {
        ChainIterator::new(self)
    }

    /// Latest block reference and its height: the block at the height that
    /// equals the number of blocks, if there is one.
    pub fn latest_block(&self) -> (latest: Option<ChainEntry>)
        ensures
            latest == entry_at(self@, self@.len() as u64),
    {
        let height = map_len(&self.blocks) as u64;
        match map_get(&self.blocks, height) {
            Some(value) => Some(ChainEntry { key: height, value }),
            None => None,
        }
    }

    /// The block at `height`, with the height, if there is one.
    pub fn get(&self, height: u64) -> (entry: Option<ChainEntry>)
        ensures
            entry == entry_at(self@, height),
    {
        match map_get(&self.blocks, height) {
            Some(value) => Some(ChainEntry { key: height, value }),
            None => None,
        }
    }

    /// Length of the blockchain.
    #[inline]
    pub fn len(&self) -> (count: usize)
        ensures
            count == self@.len(),
    {
        map_len(&self.blocks)
    }

    /// Whether blockchain is empty.
    #[inline]
    pub fn is_empty(&self) -> (empty: bool)
        ensures
            empty == (self@.len() == 0),
    {
        map_is_empty(&self.blocks)
    }
}

/// Chain ordering. In a chain that holds a block at each height from 1 to
/// the number of its blocks, the iterator yields the blocks by height: the
/// block that `nth(index)` of a new iterator yields is at height
/// `index + 1`, and the block that `nth_back(index)` yields is at the number
/// of blocks less `index`.
pub proof fn lemma_chain_ordering(chain: Chain, index: int)
    requires
        chain.is_dense(),
        0 <= index < chain@.len(),
    ensures
        nth_of(chain@, chain.spec_iter(), index as nat) matches Some(entry) && entry.key == index
            + 1 && entry.value == chain@[(index + 1) as u64],
        nth_back_of(chain@, chain.spec_iter(), index as nat) matches Some(entry) && entry.key
            == chain@.len() - index && entry.value == chain@[(chain@.len() - index) as u64],
{
    assert(chain@.contains_key((index + 1) as u64));
    assert(chain@.contains_key((chain@.len() - index) as u64));
}

/// Chain iterator count. A new iterator over a chain of `len` blocks that
/// has skipped `count` heights has `len - count` heights left to visit, and
/// none where `count` is more than `len`.
pub proof fn lemma_skip_count(chain: Chain, count: nat)
    ensures
        without_first(chain.spec_iter(), count).len() == if count <= chain@.len() {
            chain@.len() - count
        } else {
            0
        },
{
}

impl Default for Chain {
    fn default() -> (chain: Self)
        ensures
            chain@ =~= Map::empty(),
            chain.is_dense(),
    {
        Chain::new()
    }
}

/// Chain iterator. It walks the heights from 1 to the number of blocks that
/// the chain held when the iterator was made, from either end.
pub struct ChainIterator<'itm> {
    chain: &'itm Chain,
    pos_front: u64,
    pos_back: u64,
}

impl<'itm> View for ChainIterator<'itm> {
    type V = Seq<u64>;

    /// The heights that the iterator has yet to visit, in ascending order.
    closed spec fn view(&self) -> Seq<u64> {
        if self.pos_front > self.pos_back {
            Seq::empty()
        } else {
            heights_from(self.pos_front as int, (self.pos_back - self.pos_front + 1) as nat)
        }
    }
}

impl<'itm> ChainIterator<'itm> {
    #[verifier::type_invariant]
    spec fn well_formed(self) -> bool {
        &&& 1 <= self.pos_front <= self.pos_back + 1
        &&& self.pos_back <= usize::MAX
    }

    /// What the chain of the iterator holds.
    pub closed spec fn chain(&self) -> Map<u64, VersionedCommittedBlock> {
        self.chain@
    }

    fn new(chain: &'itm Chain) -> (iterator: Self)
        ensures
            iterator.chain() == chain@,
            iterator@ == heights_from(1, chain@.len()),
    {
        let iterator = ChainIterator { chain, pos_front: 1, pos_back: chain.len() as u64 };
        assert(iterator@ =~= heights_from(1, chain@.len()));
        iterator
    }

    fn is_exhausted(&self) -> (exhausted: bool)
        ensures
            exhausted == (self@.len() == 0),
    {
        self.pos_front > self.pos_back
    }

    /// Number of heights that the iterator has yet to visit.
    fn remaining(&self) -> (count: u64)
        ensures
            count == self@.len(),
    {
        if self.pos_front > self.pos_back {
            0
        } else {
            // At most `u64::MAX`, as `pos_front` is at least 1.
            proof {
                use_type_invariant(self);
            }
            self.pos_back - self.pos_front + 1
        }
    }

    /// Leaves the iterator with nothing more to visit.
    fn exhaust(&mut self)
        ensures
            final(self)@.len() == 0,
            final(self).chain() == old(self).chain(),
    {
        proof {
            use_type_invariant(&*self);
        }
        self.pos_back = self.pos_front - 1;
    }

    /// The block at the lowest height that is yet to visit, if the chain
    /// holds one there. That height is visited then.
    pub fn next(&mut self) -> (entry: Option<ChainEntry>)
        ensures
            final(self).chain() == old(self).chain(),
            old(self)@.len() == 0 ==> entry is None && final(self)@ == old(self)@,
            old(self)@.len() > 0 ==> entry == entry_at(old(self).chain(), old(self)@.first())
                && final(self)@ == old(self)@.drop_first(),
    {
        proof {
            use_type_invariant(&*self);
        }
        if !self.is_exhausted() {
            let val = self.chain.get(self.pos_front);
            if self.pos_front < self.pos_back {
                self.pos_front += 1;
            } else {
                self.pos_back = self.pos_front - 1;
            }
            assert(self@ =~= old(self)@.drop_first());
            return val;
        }
        None
    }

    /// Passes over `n` heights from the low end, and then does as `next`.
    /// Where fewer than `n + 1` heights are yet to visit, nothing is left to
    /// visit and nothing comes back.
    pub fn nth(&mut self, n: usize) -> (entry: Option<ChainEntry>)
        ensures
            final(self).chain() == old(self).chain(),
            entry == nth_of(old(self).chain(), old(self)@, n as nat),
            final(self)@ == without_first(old(self)@, n as nat + 1),
    {
        proof {
            use_type_invariant(&*self);
        }
        if n as u64 >= self.remaining() {
            self.exhaust();
            assert(self@ =~= without_first(old(self)@, n as nat + 1));
            return None;
        }
        self.pos_front += n as u64;
        assert(self@ =~= old(self)@.skip(n as int));
        let entry = self.next();
        assert(self@ =~= old(self)@.skip(n + 1));
        assert(self@ =~= without_first(old(self)@, n as nat + 1));
        entry
    }

    /// Passes over the first `n` of the heights that are yet to visit, or
    /// over all of them where they are fewer.
    pub fn skip(self, n: usize) -> (iterator: Self)
        ensures
            iterator.chain() == self.chain(),
            iterator@ == without_first(self@, n as nat),
    {
        proof {
            use_type_invariant(&self);
        }
        let mut iterator = self;
        if n as u64 >= iterator.remaining() {
            iterator.exhaust();
            assert(iterator@ =~= without_first(self@, n as nat));
        } else {
            iterator.pos_front += n as u64;
            assert(iterator@ =~= self@.skip(n as int));
        }
        iterator
    }

    /// The block at the height that equals the number of blocks of the
    /// chain, if there is one.
    pub fn last(self) -> (entry: Option<ChainEntry>)
        ensures
            entry == entry_at(self.chain(), self.chain().len() as u64),
    {
        self.chain.latest_block()
    }

    /// Number of heights that the iterator has yet to visit.
    pub fn count(self) -> (count: usize)
        ensures
            count == self@.len(),
    {
        proof {
            use_type_invariant(&self);
        }
        self.remaining() as usize
    }

    /// Number of heights that the iterator has yet to visit, as the lower
    /// and the upper bound of the number of blocks that are yet to come.
    pub fn size_hint(&self) -> (hint: (usize, Option<usize>))
        ensures
            hint.0 == self@.len(),
            hint.1 == Some(hint.0),
    {
        proof {
            use_type_invariant(self);
        }
        let height = self.remaining() as usize;
        (height, Some(height))
    }

    /// The block at the highest height that is yet to visit, if the chain
    /// holds one there. That height is visited then.
    pub fn next_back(&mut self) -> (entry: Option<ChainEntry>)
        ensures
            final(self).chain() == old(self).chain(),
            old(self)@.len() == 0 ==> entry is None && final(self)@ == old(self)@,
            old(self)@.len() > 0 ==> entry == entry_at(old(self).chain(), old(self)@.last())
                && final(self)@ == old(self)@.drop_last(),
    {
        proof {
            use_type_invariant(&*self);
        }
        if !self.is_exhausted() {
            let val = self.chain.get(self.pos_back);
            self.pos_back -= 1;
            assert(self@ =~= old(self)@.drop_last());
            return val;
        }
        None
    }

    /// Passes over `n` heights from the high end, and then does as
    /// `next_back`. Where fewer than `n + 1` heights are yet to visit,
    /// nothing is left to visit and nothing comes back.
    pub fn nth_back(&mut self, n: usize) -> (entry: Option<ChainEntry>)
        ensures
            final(self).chain() == old(self).chain(),
            entry == nth_back_of(old(self).chain(), old(self)@, n as nat),
            n >= old(self)@.len() ==> final(self)@.len() == 0,
            n < old(self)@.len() ==> final(self)@ == old(self)@.take(old(self)@.len() - 1 - n),
    {
        proof {
            use_type_invariant(&*self);
        }
        if n as u64 >= self.remaining() {
            self.exhaust();
            return None;
        }
        self.pos_back -= n as u64;
        assert(self@ =~= old(self)@.take(old(self)@.len() - n));
        let entry = self.next_back();
        assert(self@ =~= old(self)@.take(old(self)@.len() - 1 - n));
        entry
    }
}

} // verus!
