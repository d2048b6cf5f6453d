//! The byte encoding of the primitive values that a block header is made of.
//!
//! The encoding is SCALE: integers are little-endian and of fixed width, byte
//! arrays are written as they are.

use vstd::prelude::*;

verus! {

/// 256 to the power of `exponent`.
pub open spec fn pow256(exponent: nat) -> nat
    decreases exponent,
{
    if exponent == 0 {
        1
    } else {
        256 * pow256((exponent - 1) as nat)
    }
}

/// The `width` low bytes of `value`, least significant first.
pub open spec fn le_bytes(value: nat, width: nat) -> Seq<u8> {
    Seq::new(width, |i: int| ((value / pow256(i as nat)) % 256) as u8)
}

/// The SCALE encoding of a `u64`, by `parity_scale_codec::Encode::encode`.
///
/// Trusted: the codec writes an integer as its `to_le_bytes`, so the result
/// is taken to be the eight bytes of `value`, least significant first.
#[verifier::external_body]
pub(crate) fn encode_u64(value: u64) -> (bytes: Vec<u8>)
    ensures
        bytes@ == le_bytes(value as nat, 8),
{
    parity_scale_codec::Encode::encode(&value)
}

/// The SCALE encoding of a `u128`, by `parity_scale_codec::Encode::encode`.
///
/// Trusted: the codec writes an integer as its `to_le_bytes`, so the result
/// is taken to be the sixteen bytes of `value`, least significant first.
#[verifier::external_body]
pub(crate) fn encode_u128(value: u128) -> (bytes: Vec<u8>)
    ensures
        bytes@ == le_bytes(value as nat, 16),
{
    parity_scale_codec::Encode::encode(&value)
}

/// The SCALE encoding of a 32-byte array, by
/// `parity_scale_codec::Encode::encode`.
///
/// Trusted: the codec writes a byte array without a length prefix, so the
/// result is taken to be the 32 bytes themselves, in order.
#[verifier::external_body]
pub(crate) fn encode_bytes32(array: &[u8; 32]) -> (bytes: Vec<u8>)
    ensures
        bytes@ == array@,
{
    parity_scale_codec::Encode::encode(array)
}

/// Appends `tail` to `bytes`.
pub fn append(bytes: &mut Vec<u8>, tail: &Vec<u8>)
    ensures
        final(bytes)@ == old(bytes)@ + tail@,
{
    let mut i: usize = 0;
    while i < tail.len()
        invariant
            i <= tail.len(),
            bytes@ == old(bytes)@ + tail@.take(i as int),
        decreases tail.len() - i,
    {
        bytes.push(tail[i]);
        assert(tail@.take(i + 1) == tail@.take(i as int).push(tail@[i as int]));
        i += 1;
    }
    assert(tail@.take(tail.len() as int) == tail@);
}

/// Whether two byte strings hold the same bytes.
pub fn same_bytes(left: &Vec<u8>, right: &Vec<u8>) -> (same: bool)
    ensures
        same == (left@ == right@),
{
    if left.len() != right.len() {
        return false;
    }
    let mut i: usize = 0;
    while i < left.len()
        invariant
            i <= left.len(),
            left.len() == right.len(),
            forall|j: int| 0 <= j < i ==> left@[j] == right@[j],
        decreases left.len() - i,
    {
        if left[i] != right[i] {
            return false;
        }
        i += 1;
    }
    assert(left@ =~= right@);
    true
}

/// A copy of a byte string.
pub fn copy_bytes(bytes: &Vec<u8>) -> (copy: Vec<u8>)
    ensures
        copy@ == bytes@,
{
    let mut copy: Vec<u8> = Vec::new();
    append(&mut copy, bytes);
    assert(copy@ =~= bytes@);
    copy
}

} // verus!
