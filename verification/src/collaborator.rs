//! How the pipeline speaks of the hashing and the Merkle collaborator.
//!
//! Both are handed in as functions. What a contract says of such a function
//! is said through the two predicates of each: whether it can be asked, and
//! whether a value is an answer of it.

use crate::hash;
use vstd::prelude::*;

verus! {

/// Whether `digest` can be asked for the hash of `bytes`.
pub open spec fn can_digest<D: Fn(&[u8]) -> hash::Hash>(digest: D, bytes: Seq<u8>) -> bool {
    forall|input: &[u8]| input@ == bytes ==> #[trigger] call_requires(digest, (input,))
}

/// Whether `hash` is an answer of `digest` to `bytes`.
pub open spec fn digests<D: Fn(&[u8]) -> hash::Hash>(
    digest: D,
    bytes: Seq<u8>,
    hash: hash::Hash,
) -> bool {
    exists|input: &[u8]| #[trigger] call_ensures(digest, (input,), hash) && input@ == bytes
}

/// Whether `digest` has one answer only to each input: equal bytes give
/// equal hashes.
pub open spec fn is_function<D: Fn(&[u8]) -> hash::Hash>(digest: D) -> bool {
    forall|bytes: Seq<u8>, first: hash::Hash, second: hash::Hash|
        #[trigger] digests(digest, bytes, first) && #[trigger] digests(digest, bytes, second)
            ==> first == second
}

/// The hash of `bytes`, as `digest` computes it.
pub fn hash_of_bytes<D: Fn(&[u8]) -> hash::Hash>(bytes: &Vec<u8>, digest: &D) -> (hash:
    hash::Hash)
    requires
        can_digest(*digest, bytes@),
    ensures
        digests(*digest, bytes@, hash),
{
    let input = bytes.as_slice();
    digest(input)
}

/// Whether `merkle` can be asked for the root of `leaves`. It is never asked
/// for the root of no leaves.
pub open spec fn can_root<M: Fn(&[hash::Hash]) -> hash::Hash>(
    merkle: M,
    leaves: Seq<hash::Hash>,
) -> bool {
    leaves.len() > 0 ==> forall|input: &[hash::Hash]|
        input@ == leaves ==> #[trigger] call_requires(merkle, (input,))
}

/// Whether `root` is the Merkle root of `leaves`: the zero hash where there
/// are no leaves, else an answer of `merkle` to the leaves in their order.
pub open spec fn roots<M: Fn(&[hash::Hash]) -> hash::Hash>(
    merkle: M,
    leaves: Seq<hash::Hash>,
    root: hash::Hash,
) -> bool {
    if leaves.len() == 0 {
        root == hash::Hash::zero()
    } else {
        exists|input: &[hash::Hash]| #[trigger]
            call_ensures(merkle, (input,), root) && input@ == leaves
    }
}

/// Whether `merkle` has one answer only to each input: equal leaves give
/// equal roots.
pub open spec fn roots_is_function<M: Fn(&[hash::Hash]) -> hash::Hash>(merkle: M) -> bool {
    forall|leaves: Seq<hash::Hash>, first: hash::Hash, second: hash::Hash|
        #[trigger] roots(merkle, leaves, first) && #[trigger] roots(merkle, leaves, second)
            ==> first == second
}

/// The Merkle root of `leaves`: the zero hash where there are no leaves,
/// else what `merkle` computes from them.
pub fn merkle_root<M: Fn(&[hash::Hash]) -> hash::Hash>(leaves: &Vec<hash::Hash>, merkle: &M) -> (root:
    hash::Hash)
    requires
        can_root(*merkle, leaves@),
    ensures
        roots(*merkle, leaves@, root),
{
    if leaves.len() == 0 {
        hash::Hash::zeroed()
    } else {
        let input = leaves.as_slice();
        merkle(input)
    }
}

} // verus!
