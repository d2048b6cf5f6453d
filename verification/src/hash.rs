//! Content hashes: the raw 32-byte value and its typed form.
//!
//! A hash is produced by the hashing collaborator; this module only holds
//! the bytes, compares them, and retags them.

use std::marker::PhantomData;
use vstd::prelude::*;

verus! {

/// Number of bytes in a hash.
pub const HASH_LENGTH: usize = 32;

/// Tag of a hash taken over a chained block.
#[derive(Debug, Clone, Copy, PartialEq, Eq, Structural)]
pub struct Chained;

/// Tag of a hash taken over a valid block.
#[derive(Debug, Clone, Copy, PartialEq, Eq, Structural)]
pub struct Valid;

/// Tag of a hash or a signature set taken over a valid signed block.
#[derive(Debug, Clone, Copy, PartialEq, Eq, Structural)]
pub struct Signed;

/// Tag of a hash or a signature set taken over a committed block.
#[derive(Debug, Clone, Copy, PartialEq, Eq, Structural)]
pub struct Committed;

/// Tag of a hash or a signature set taken over a candidate block.
#[derive(Debug, Clone, Copy, PartialEq, Eq, Structural)]
pub struct Candidate;

/// Tag of the root of a Merkle tree of transaction hashes.
#[derive(Debug, Clone, Copy, PartialEq, Eq, Structural)]
pub struct MerkleRoot;

/// A 32-byte content hash.
#[derive(Debug, Clone, Copy, Eq)]
pub struct Hash {
    /// The bytes of the hash.
    pub bytes: [u8; 32],
}

impl View for Hash {
    type V = Seq<u8>;

    open spec fn view(&self) -> Seq<u8> {
        self.bytes@
    }
}

impl PartialEq for Hash {
    fn eq(&self, other: &Self) -> (equal: bool) {
        let mut i: usize = 0;
        while i < 32
            invariant
                i <= 32,
                forall|j: int| 0 <= j < i ==> self.bytes[j] == other.bytes[j],
            decreases 32 - i,
        {
            if self.bytes[i] != other.bytes[i] {
                return false;
            }
            i += 1;
        }
        assert(self.bytes =~= other.bytes);
        true
    }
}

impl vstd::std_specs::cmp::PartialEqSpecImpl for Hash {
    open spec fn obeys_eq_spec() -> bool {
        true
    }

    open spec fn eq_spec(&self, other: &Self) -> bool {
        *self == *other
    }
}

impl Hash {
    /// Whether every byte of the hash is zero.
    pub open spec fn is_zero(&self) -> bool {
        forall|i: int| 0 <= i < 32 ==> self.bytes[i] == 0u8
    }

    /// The all-zero hash: the sentinel for "no previous block" and for the
    /// root of an empty transaction list.
    pub open spec fn zero() -> Hash {
        Hash { bytes: vstd::array::spec_array_fill_for_copy_type::<u8, 32>(0u8) }
    }

    /// A hash made of bytes that were computed elsewhere.
    pub fn prehashed(bytes: [u8; 32]) -> (hash: Hash)
        ensures
            hash.bytes == bytes,
    {
        Hash { bytes }
    }

    /// The all-zero hash.
    pub fn zeroed() -> (hash: Hash)
        ensures
            hash == Hash::zero(),
            hash.is_zero(),
    {
        Hash { bytes: [0u8; 32] }
    }

    /// The bytes of the hash.
    pub fn as_bytes(&self) -> (bytes: &[u8; 32])
        ensures
            *bytes == self.bytes,
    {
        &self.bytes
    }

    /// The hash with the tag `T`.
    pub open spec fn spec_typed<T>(self) -> HashOf<T> {
        HashOf { hash: self, marker: PhantomData }
    }

    /// Tags the hash with what it was taken over. The bytes stay the same.
    pub fn typed<T>(self) -> (typed: HashOf<T>)
        ensures
            typed == self.spec_typed::<T>(),
    {
        HashOf { hash: self, marker: PhantomData }
    }

    /// Two hashes with the same bytes are the same hash, and the zero hash
    /// is the one whose bytes are all zero.
    pub proof fn lemma_bytes_decide(self, other: Hash)
        ensures
            self@ == other@ <==> self == other,
            self.is_zero() <==> self == Hash::zero(),
    {
        assert(self@ == other@ ==> self.bytes =~= other.bytes);
        assert(self.is_zero() ==> self.bytes =~= Hash::zero().bytes);
    }
}

/// A hash tagged with the kind of value it was taken over.
///
/// The tag exists in the type only. Two typed hashes of one header hold the
/// same bytes, whatever their tags.
#[derive(Debug, PartialEq, Eq)]
pub struct HashOf<T> {
    /// The untyped hash.
    pub hash: Hash,
    /// The tag.
    pub marker: PhantomData<T>,
}

impl<T> Clone for HashOf<T> {
    fn clone(&self) -> (copy: Self)
        ensures
            copy == *self,
    {
        HashOf { hash: self.hash, marker: PhantomData }
    }
}

impl<T> Copy for HashOf<T> {}

impl<T> HashOf<T> {
    /// The typed form of the all-zero hash.
    pub open spec fn zero() -> HashOf<T> {
        Hash::zero().spec_typed()
    }

    /// A typed hash is decided by its bytes.
    pub proof fn lemma_hash_decides(self, other: HashOf<T>)
        ensures
            self.hash == other.hash <==> self == other,
    {
    }

    /// Changes the tag and keeps the bytes.
    pub fn transmute<U>(self) -> (retagged: HashOf<U>)
        ensures
            retagged == self.hash.spec_typed::<U>(),
    {
        HashOf { hash: self.hash, marker: PhantomData }
    }

    /// The hash without its tag.
    pub fn untyped(&self) -> (hash: Hash)
        ensures
            hash == self.hash,
    {
        self.hash
    }
}

impl<T> std::ops::Deref for HashOf<T> {
    type Target = Hash;

    fn deref(&self) -> (hash: &Hash)
        ensures
            *hash == self.hash,
    {
        &self.hash
    }
}

/// The previous-block hash of a chain that has no block yet.
#[derive(Debug)]
pub struct EmptyChainHash<T>(pub PhantomData<T>);

impl<T> Clone for EmptyChainHash<T> {
    fn clone(&self) -> (copy: Self)
        ensures
            copy == *self,
    {
        EmptyChainHash(PhantomData)
    }
}

impl<T> Copy for EmptyChainHash<T> {}

impl<T> Default for EmptyChainHash<T> {
    fn default() -> (empty: Self)
        ensures
            empty == EmptyChainHash::<T>(PhantomData),
    {
        EmptyChainHash(PhantomData)
    }
}

impl<T> From<EmptyChainHash<T>> for HashOf<T> {
    fn from(empty: EmptyChainHash<T>) -> (hash: Self) {
        Hash::zeroed().typed()
    }
}

impl<T> vstd::std_specs::convert::FromSpecImpl<EmptyChainHash<T>> for HashOf<T> {
    open spec fn obeys_from_spec() -> bool {
        true
    }

    open spec fn from_spec(empty: EmptyChainHash<T>) -> Self {
        HashOf::<T>::zero()
    }
}

} // verus!
