//! What the block pipeline reads of the world state: which transactions are
//! in the blockchain already.

use crate::hash;
use vstd::prelude::*;

verus! {

/// Read-only view of the ledger state, as far as blocks look at it.
#[derive(Debug, Clone, PartialEq, Eq)]
pub struct WorldStateView {
    /// Hashes of the transactions that are in the blockchain.
    pub transactions: Vec<hash::Hash>,
}

impl WorldStateView {
    /// Whether the transaction with this hash is in the blockchain.
    pub open spec fn spec_has_transaction(&self, hash: hash::Hash) -> bool {
        self.transactions@.contains(hash)
    }

    /// The view of a ledger without transactions.
    pub fn new() -> (wsv: Self)
        ensures
            wsv.transactions@ == Seq::<hash::Hash>::empty(),
    {
        WorldStateView { transactions: Vec::new() }
    }

    /// Records that the transaction with this hash is in the blockchain.
    pub fn add_transaction(&mut self, hash: hash::Hash)
        ensures
            final(self).transactions@ == old(self).transactions@.push(hash),
            final(self).spec_has_transaction(hash),
    {
        self.transactions.push(hash);
        assert(self.transactions@[self.transactions@.len() - 1] == hash);
    }

    /// Whether the transaction with this hash is in the blockchain.
    pub fn has_transaction(&self, hash: &hash::Hash) -> (present: bool)
        ensures
            present == self.spec_has_transaction(*hash),
    {
        let mut i: usize = 0;
        while i < self.transactions.len()
            invariant
                i <= self.transactions.len(),
                forall|j: int| 0 <= j < i ==> self.transactions@[j] != *hash,
            decreases self.transactions.len() - i,
        {
            if self.transactions[i] == *hash {
                return true;
            }
            i += 1;
        }
        false
    }
}

} // verus!
