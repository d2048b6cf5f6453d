//! Keys, signatures, and the set of signatures that peers put under a block.
//!
//! Signing and verifying are the work of the signature collaborator. This
//! module holds what comes out of it: a signature is the public key of its
//! signer and the bytes that the collaborator produced. A signature set holds
//! at most one signature of each signer and is never empty.

use crate::codec::{copy_bytes, same_bytes};
use crate::hash::{self, HashOf};
use std::marker::PhantomData;
use vstd::prelude::*;

verus! {

/// A public key: the identity of a signer.
#[derive(Debug, PartialEq, Eq)]
pub struct PublicKey {
    /// The bytes of the key.
    pub bytes: Vec<u8>,
}

impl View for PublicKey {
    type V = Seq<u8>;

    open spec fn view(&self) -> Seq<u8> {
        self.bytes@
    }
}

impl Clone for PublicKey {
    fn clone(&self) -> (copy: Self)
        ensures
            copy@ == self@,
    {
        PublicKey { bytes: copy_bytes(&self.bytes) }
    }
}

/// A private key.
#[derive(Debug, Clone, PartialEq, Eq)]
pub struct PrivateKey {
    /// The bytes of the key.
    pub bytes: Vec<u8>,
}

/// A public key with the private key that belongs to it.
#[derive(Debug, Clone, PartialEq, Eq)]
pub struct KeyPair {
    /// The public key.
    pub public_key: PublicKey,
    /// The private key.
    pub private_key: PrivateKey,
}

/// Why the signature collaborator could not sign.
#[derive(Debug, Clone, PartialEq, Eq)]
pub struct SignError {
    /// What the collaborator reported.
    pub reason: String,
}

/// What a signature is, as plain values: who signed, and the signature bytes.
pub struct SignatureView {
    /// The bytes of the signer's public key.
    pub signer: Seq<u8>,
    /// The bytes of the signature.
    pub payload: Seq<u8>,
}

/// A signature: the public key of the signer and the signature bytes.
#[derive(Debug, PartialEq, Eq)]
pub struct Signature {
    /// The public key of the signer.
    pub public_key: PublicKey,
    /// The signature bytes, as the signature collaborator produced them.
    pub payload: Vec<u8>,
}

impl View for Signature {
    type V = SignatureView;

    open spec fn view(&self) -> SignatureView {
        SignatureView { signer: self.public_key@, payload: self.payload@ }
    }
}

impl Clone for Signature {
    fn clone(&self) -> (copy: Self)
        ensures
            copy@ == self@,
    {
        Signature { public_key: self.public_key.clone(), payload: copy_bytes(&self.payload) }
    }
}

/// A signature tagged with the kind of value that was signed.
#[derive(Debug, PartialEq, Eq)]
pub struct SignatureOf<T> {
    /// The untyped signature.
    pub signature: Signature,
    /// The tag.
    pub marker: PhantomData<T>,
}

impl<T> View for SignatureOf<T> {
    type V = SignatureView;

    open spec fn view(&self) -> SignatureView {
        self.signature@
    }
}

impl<T> Clone for SignatureOf<T> {
    fn clone(&self) -> (copy: Self)
        ensures
            copy@ == self@,
    {
        SignatureOf { signature: self.signature.clone(), marker: PhantomData }
    }
}

impl<T> SignatureOf<T> {
    /// The signature of the holder of `public_key` that consists of
    /// `payload`.
    pub fn new(public_key: PublicKey, payload: Vec<u8>) -> (signature: Self)
        ensures
            signature.signature.public_key == public_key,
            signature.signature.payload == payload,
    {
        SignatureOf { signature: Signature { public_key, payload }, marker: PhantomData }
    }

    /// Has `sign` sign `hash` with `key_pair`, and makes the signature of
    /// what it returns.
    ///
    /// The signature bytes are those that `sign` returned for this key pair
    /// and this hash. The signer is the public key of the pair. An error of
    /// `sign` is handed on.
    pub fn from_hash<S: Fn(&KeyPair, &hash::Hash) -> Result<Vec<u8>, SignError>>(
        key_pair: KeyPair,
        hash: &HashOf<T>,
        sign: &S,
    ) -> (signed: Result<Self, SignError>)
        requires
            call_requires(*sign, (&key_pair, &hash.hash)),
        ensures
            call_ensures(*sign, (&key_pair, &hash.hash), Self::signer_answer(signed)),
            signed matches Ok(signature) ==> signature.signature.public_key
                == key_pair.public_key,
    {
        match sign(&key_pair, &hash.hash) {
            Ok(payload) => Ok(Self::new(key_pair.public_key, payload)),
            Err(error) => Err(error),
        }
    }

    /// What the signing collaborator must have answered for `from_hash` to
    /// return `signed`.
    pub open spec fn signer_answer(signed: Result<Self, SignError>) -> Result<Vec<u8>, SignError> {
        match signed {
            Ok(signature) => Ok(signature.signature.payload),
            Err(error) => Err(error),
        }
    }

    /// Changes the tag and keeps the signature.
    pub fn transmute<U>(self) -> (retagged: SignatureOf<U>)
        ensures
            retagged.signature == self.signature,
    {
        SignatureOf { signature: self.signature, marker: PhantomData }
    }
}

/// Whether one of `signatures` is by `signer`.
pub open spec fn has_signer(signatures: Seq<SignatureView>, signer: Seq<u8>) -> bool {
    exists|i: int| 0 <= i < signatures.len() && #[trigger] signatures[i].signer == signer
}

/// Whether no two of `signatures` are by the same signer.
pub open spec fn distinct_signers(signatures: Seq<SignatureView>) -> bool {
    forall|i: int, j: int|
        0 <= i < j < signatures.len() ==> #[trigger] signatures[i].signer
            != #[trigger] signatures[j].signer
}

/// `signatures` after `signature` was offered to it: unchanged where its
/// signer is there already, else with `signature` at the end.
pub open spec fn with_signature(
    signatures: Seq<SignatureView>,
    signature: SignatureView,
) -> Seq<SignatureView> {
    if has_signer(signatures, signature.signer) {
        signatures
    } else {
        signatures.push(signature)
    }
}

/// Signing twice changes nothing. A signature by a signer who is among the
/// signers already leaves the signatures as they are; so once a signature
/// was offered, any signature by the same signer leaves them as they are.
pub proof fn lemma_insert_idempotent(
    signatures: Seq<SignatureView>,
    signature: SignatureView,
    again: SignatureView,
)
    requires
        again.signer == signature.signer,
    ensures
        has_signer(signatures, signature.signer) ==> with_signature(signatures, signature)
            == signatures,
        with_signature(with_signature(signatures, signature), again) == with_signature(
            signatures,
            signature,
        ),
{
    let once = with_signature(signatures, signature);
    if has_signer(signatures, signature.signer) {
        assert(has_signer(once, again.signer));
    } else {
        assert(once[once.len() - 1].signer == again.signer);
        assert(has_signer(once, again.signer));
    }
}

/// Offering a signature makes its signer one of the signers, and no one
/// else: afterwards the signers are those from before and the new one.
pub proof fn lemma_insert_adds_signer(signatures: Seq<SignatureView>, signature: SignatureView)
    ensures
        has_signer(with_signature(signatures, signature), signature.signer),
        forall|signer: Seq<u8>|
            has_signer(with_signature(signatures, signature), signer) <==> (has_signer(
                signatures,
                signer,
            ) || signer == signature.signer),
{
    let after = with_signature(signatures, signature);
    if !has_signer(signatures, signature.signer) {
        assert(after[after.len() - 1].signer == signature.signer);
        assert forall|signer: Seq<u8>| has_signer(after, signer) implies (has_signer(
            signatures,
            signer,
        ) || signer == signature.signer) by {
            let i = choose|i: int| 0 <= i < after.len() && #[trigger] after[i].signer == signer;
            if i < signatures.len() {
                assert(signatures[i].signer == signer);
            }
        }
        assert forall|signer: Seq<u8>| has_signer(signatures, signer) implies has_signer(
            after,
            signer,
        ) by {
            let i = choose|i: int|
                0 <= i < signatures.len() && #[trigger] signatures[i].signer == signer;
            assert(after[i].signer == signer);
        }
    }
}

/// Offering a signature keeps the signers distinct.
pub proof fn lemma_insert_keeps_distinct(signatures: Seq<SignatureView>, signature: SignatureView)
    requires
        distinct_signers(signatures),
    ensures
        distinct_signers(with_signature(signatures, signature)),
{
    let after = with_signature(signatures, signature);
    if !has_signer(signatures, signature.signer) {
        assert forall|i: int, j: int| 0 <= i < j < after.len() implies #[trigger] after[i].signer
            != #[trigger] after[j].signer by {
            if j == after.len() - 1 {
                if after[i].signer == after[j].signer {
                    assert(signatures[i].signer == signature.signer);
                }
            }
        }
    }
}

/// Those of the first `count` of `items` whose flag is set, in their order.
pub open spec fn picked_prefix<A>(items: Seq<A>, flags: Seq<bool>, count: nat) -> Seq<A>
    decreases count,
{
    if count == 0 {
        Seq::empty()
    } else {
        let before = picked_prefix(items, flags, (count - 1) as nat);
        if flags[count - 1] {
            before.push(items[count - 1])
        } else {
            before
        }
    }
}

/// Those of `items` whose flag is set, in their order.
pub open spec fn picked<A>(items: Seq<A>, flags: Seq<bool>) -> Seq<A> {
    picked_prefix(items, flags, items.len())
}

/// The signatures under one value, at most one of each signer, at least one
/// in all. They are kept in the order in which their signers first signed.
#[derive(Debug, PartialEq, Eq)]
pub struct SignaturesOf<T> {
    signatures: Vec<Signature>,
    marker: PhantomData<T>,
}

impl<T> View for SignaturesOf<T> {
    type V = Seq<SignatureView>;

    open spec fn view(&self) -> Seq<SignatureView> {
        self.values().map_values(|signature: Signature| signature@)
    }
}

impl<T> Clone for SignaturesOf<T> {
    fn clone(&self) -> (copy: Self)
        ensures
            copy@ == self@,
    {
        proof {
            use_type_invariant(self);
        }
        let mut signatures: Vec<Signature> = Vec::new();
        let mut i: usize = 0;
        while i < self.signatures.len()
            invariant
                i <= self.signatures.len(),
                signatures@.len() == i,
                forall|j: int| 0 <= j < i ==> signatures@[j]@ == self.signatures@[j]@,
            decreases self.signatures.len() - i,
        {
            signatures.push(self.signatures[i].clone());
            i += 1;
        }
        assert(signatures@.map_values(|signature: Signature| signature@) =~= self@);
        SignaturesOf { signatures, marker: PhantomData }
    }
}

impl<T> From<SignatureOf<T>> for SignaturesOf<T> {
    /// The set that holds `signature` alone.
    fn from(signature: SignatureOf<T>) -> (set: Self)
        ensures
            set@ == seq![signature@],
            set.values() == seq![signature.signature],
    {
        let mut signatures: Vec<Signature> = Vec::new();
        signatures.push(signature.signature);
        assert(signatures@ =~= seq![signature.signature]);
        assert(signatures@.map_values(|signature: Signature| signature@) =~= seq![signature@]);
        SignaturesOf { signatures, marker: PhantomData }
    }
}

impl<T> vstd::std_specs::convert::FromSpecImpl<SignatureOf<T>> for SignaturesOf<T> {
    /// The conversion makes a new list, so what it gives is said by the
    /// view of the set and not by a function of the signature.
    open spec fn obeys_from_spec() -> bool {
        false
    }

    open spec fn from_spec(signature: SignatureOf<T>) -> Self {
        arbitrary()
    }
}

impl<T> SignaturesOf<T> {
    #[verifier::type_invariant]
    spec fn well_formed(self) -> bool {
        &&& self@.len() >= 1
        &&& distinct_signers(self@)
    }

    /// The signatures of the set, in their order.
    pub closed spec fn values(&self) -> Seq<Signature> {
        self.signatures@
    }

    /// The set with the tag `U` and the same signatures.
    pub closed spec fn spec_transmute<U>(self) -> SignaturesOf<U> {
        SignaturesOf { signatures: self.signatures, marker: PhantomData }
    }

    /// Retagging keeps the signatures, and retagging back gives the set that
    /// one started with.
    pub proof fn lemma_transmute<U>(self)
        ensures
            self.spec_transmute::<U>().values() == self.values(),
            self.spec_transmute::<U>()@ == self@,
            self.spec_transmute::<U>().spec_transmute::<T>() == self,
    {
    }

    /// Number of signatures in the set. It is at least 1.
    pub fn len(&self) -> (count: usize)
        ensures
            count == self@.len(),
            count >= 1,
            distinct_signers(self@),
    {
        proof {
            use_type_invariant(self);
        }
        self.signatures.len()
    }

    /// Whether the holder of `public_key` has signed.
    pub fn contains(&self, public_key: &PublicKey) -> (present: bool)
        ensures
            present == has_signer(self@, public_key@),
    {
        let mut i: usize = 0;
        while i < self.signatures.len()
            invariant
                i <= self.signatures.len(),
                forall|j: int| 0 <= j < i ==> (#[trigger] self@[j]).signer != public_key@,
            decreases self.signatures.len() - i,
        {
            if same_bytes(&self.signatures[i].public_key.bytes, &public_key.bytes) {
                assert(self@[i as int].signer == public_key@);
                return true;
            }
            i += 1;
        }
        false
    }

    /// Offers a signature to the set. Where its signer has signed already the
    /// set stays as it is; else the signature comes last.
    pub fn insert(self, signature: SignatureOf<T>) -> (set: Self)
        ensures
            set@ == with_signature(self@, signature@),
            has_signer(self@, signature@.signer) ==> set == self,
            !has_signer(self@, signature@.signer) ==> set.values() == self.values().push(
                signature.signature,
            ),
    {
        proof {
            use_type_invariant(&self);
        }
        if self.contains(&signature.signature.public_key) {
            self
        } else {
            let ghost before = self@;
            let mut signatures = self.signatures;
            signatures.push(signature.signature);
            assert(signatures@.map_values(|signature: Signature| signature@) =~= before.push(
                signature@,
            ));
            SignaturesOf { signatures, marker: PhantomData }
        }
    }

    /// Changes the tag and keeps the signatures.
    pub fn transmute<U>(self) -> (retagged: SignaturesOf<U>)
        ensures
            retagged == self.spec_transmute::<U>(),
            retagged.values() == self.values(),
            retagged@ == self@,
    {
        proof {
            use_type_invariant(&self);
        }
        SignaturesOf { signatures: self.signatures, marker: PhantomData }
    }

    /// Retagging twice is retagging once, to the last tag.
    pub proof fn lemma_transmute_twice<U, W>(self)
        ensures
            self.spec_transmute::<U>().spec_transmute::<W>() == self.spec_transmute::<W>(),
    {
    }

    /// The signatures, in their order.
    pub fn signatures(&self) -> (all: &Vec<Signature>)
        ensures
            all@ == self.values(),
    {
        &self.signatures
    }

    /// The signatures whose flag in `verified` is set, in their order.
    /// `verified` holds one flag for each signature of the set.
    pub fn select(&self, verified: &Vec<bool>) -> (chosen: Vec<&Signature>)
        requires
            verified@.len() == self@.len(),
        ensures
            chosen@.map_values(|signature: &Signature| signature@) == picked(self@, verified@),
    {
        let mut chosen: Vec<&Signature> = Vec::new();
        let mut i: usize = 0;
        while i < self.signatures.len()
            invariant
                i <= self.signatures.len(),
                verified@.len() == self@.len(),
                chosen@.map_values(|signature: &Signature| signature@) == picked_prefix(
                    self@,
                    verified@,
                    i as nat,
                ),
            decreases self.signatures.len() - i,
        {
            let ghost before = chosen@.map_values(|signature: &Signature| signature@);
            if verified[i] {
                chosen.push(&self.signatures[i]);
                assert(chosen@.map_values(|signature: &Signature| signature@) =~= before.push(
                    self@[i as int],
                ));
            }
            i += 1;
        }
        chosen
    }

    /// The signatures that `verify` accepts for `hash`, in their order.
    ///
    /// `verify` is asked once for each signature of the set, with `hash`. A
    /// signature is returned exactly when `verify` answered `true` for it.
    pub fn verified_by_hash<V: Fn(&Signature, &hash::Hash) -> bool>(
        &self,
        hash: HashOf<T>,
        verify: &V,
    ) -> (chosen: Vec<&Signature>)
        requires
            self.can_verify(hash, *verify),
        ensures
            exists|verified: Seq<bool>| #[trigger]
                self.verified_as(hash, *verify, verified) && chosen@.map_values(
                    |signature: &Signature| signature@,
                ) == picked(self@, verified),
    {
        let mut verified: Vec<bool> = Vec::new();
        let mut i: usize = 0;
        while i < self.signatures.len()
            invariant
                i <= self.signatures.len(),
                verified@.len() == i,
                self.can_verify(hash, *verify),
                forall|j: int|
                    0 <= j < i ==> call_ensures(
                        *verify,
                        (&self.signatures@[j], &hash.hash),
                        #[trigger] verified@[j],
                    ),
            decreases self.signatures.len() - i,
        {
            let accepted = verify(&self.signatures[i], &hash.hash);
            verified.push(accepted);
            i += 1;
        }
        assert(self.verified_as(hash, *verify, verified@));
        self.select(&verified)
    }

    /// Whether `verify` can be asked about each signature of the set, with
    /// `hash`.
    pub open spec fn can_verify<V: Fn(&Signature, &hash::Hash) -> bool>(
        &self,
        hash: HashOf<T>,
        verify: V,
    ) -> bool {
        forall|j: int|
            0 <= j < self.values().len() ==> call_requires(
                verify,
                (&#[trigger] self.values()[j], &hash.hash),
            )
    }

    /// Whether `verified` holds, for each signature of the set in turn, an
    /// answer of `verify` to that signature and `hash`.
    pub open spec fn verified_as<V: Fn(&Signature, &hash::Hash) -> bool>(
        &self,
        hash: HashOf<T>,
        verify: V,
        verified: Seq<bool>,
    ) -> bool {
        &&& verified.len() == self.values().len()
        &&& forall|j: int|
            0 <= j < verified.len() ==> call_ensures(
                verify,
                (&self.values()[j], &hash.hash),
                #[trigger] verified[j],
            )
    }
}

} // verus!
