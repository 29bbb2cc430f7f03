//! Digests and the hash functions that produce them.
//!
//! The hash functions themselves are computed by `miden-crypto`; this module gives their
//! results names, so that the rest of the library can say which digest a value carries.

use miden_crypto::hash::blake::Blake3_256;
use miden_crypto::hash::rpo::{Rpo256, RpoDigest};
use miden_crypto::Felt;
use miden_crypto::StarkField;
use vstd::bytes::spec_u64_from_le_bytes;
use vstd::prelude::*;
use winter_utils::{Deserializable, DeserializationError, SliceReader};

verus! {

/// The prime modulus of the field that the machine computes in: 2^64 - 2^32 + 1.
pub const MODULUS: u64 = 18446744069414584321;

/// A 256-bit digest: four field elements, each written as an integer.
#[derive(Clone, Copy, Debug, PartialEq, Eq)]
pub struct Digest {
    pub elements: [u64; 4],
}

impl View for Digest {
    type V = Seq<u64>;

    open spec fn view(&self) -> Seq<u64> {
        self.elements@
    }
}

impl Digest {
    /// The digest whose elements are all zero.
    pub fn zero() -> (out: Digest)
        ensures
            out@ == zero_digest(),
    {
        let out = Digest { elements: [0, 0, 0, 0] };
        assert(out@ =~= zero_digest());
        out
    }
}

/// The elements of the all-zero digest.
pub open spec fn zero_digest() -> Seq<u64> {
    seq![0u64, 0u64, 0u64, 0u64]
}

/// The digest that the Rescue Prime Optimized permutation gives for two digests in the rate
/// portion of its state and a domain value in the second capacity element.
pub uninterp spec fn rpo_merge_in_domain(left: Seq<u64>, right: Seq<u64>, domain: u64) -> Seq<u64>;

/// The Rescue Prime Optimized digest of a sequence of field elements.
pub uninterp spec fn rpo_hash_elements(elements: Seq<u64>) -> Seq<u64>;

/// The 256-bit BLAKE3 digest of a sequence of bytes.
pub uninterp spec fn blake3_256(bytes: Seq<u8>) -> Seq<u8>;

#[verifier::external_type_specification]
#[verifier::external_body]
pub struct ExDeserializationError(DeserializationError);

/// Calls `Rpo256::merge_in_domain` on the two digests and the domain value, each integer
/// taken as a field element, and returns the elements of the result as integers. The result
/// is the digest named by [`rpo_merge_in_domain`].
#[verifier::external_body]
pub(crate) fn merge_in_domain(left: &Digest, right: &Digest, domain: u64) -> (out: Digest)
    ensures
        out@ == rpo_merge_in_domain(left@, right@, domain),
{
    let l = RpoDigest::new(left.elements.map(Felt::new));
    let r = RpoDigest::new(right.elements.map(Felt::new));
    let d = Rpo256::merge_in_domain(&[l, r], Felt::new(domain));
    Digest { elements: [d[0].as_int(), d[1].as_int(), d[2].as_int(), d[3].as_int()] }
}

/// Calls `Rpo256::hash_elements` on the integers, each taken as a field element, and returns
/// the elements of the result as integers. The result is the digest named by
/// [`rpo_hash_elements`].
#[verifier::external_body]
pub(crate) fn hash_elements(elements: &Vec<u64>) -> (out: Digest)
    ensures
        out@ == rpo_hash_elements(elements@),
{
    let felts: Vec<Felt> = elements.iter().map(|v| Felt::new(*v)).collect();
    let d = Rpo256::hash_elements(&felts);
    Digest { elements: [d[0].as_int(), d[1].as_int(), d[2].as_int(), d[3].as_int()] }
}

/// Calls `Blake3_256::hash` on the bytes. The result is the digest named by [`blake3_256`].
#[verifier::external_body]
pub(crate) fn blake3_hash(bytes: &[u8]) -> (out: [u8; 32])
    ensures
        out@ == blake3_256(bytes@),
{
    Blake3_256::hash(bytes).into()
}

/// The 64-bit word that `bytes` holds at `8 * k`, least significant byte first.
pub open spec fn word_at(bytes: Seq<u8>, k: int) -> u64
    recommends
        0 <= k,
        8 * k + 8 <= bytes.len(),
{
    spec_u64_from_le_bytes(bytes.subrange(8 * k, 8 * k + 8))
}

/// Whether `bytes` starts with the serialized form of a digest: 32 bytes that hold four
/// words, each below the modulus.
pub open spec fn holds_digest(bytes: Seq<u8>) -> bool {
    &&& bytes.len() >= 32
    &&& forall|k: int| 0 <= k < 4 ==> #[trigger] word_at(bytes, k) < MODULUS
}

/// The elements of the digest that `bytes` starts with.
pub open spec fn digest_words(bytes: Seq<u8>) -> Seq<u64> {
    Seq::new(4, |k: int| word_at(bytes, k))
}

/// Calls `RpoDigest::read_from` on a `SliceReader` over the bytes. It reads four words of
/// eight bytes, least significant byte first, and fails when the bytes run out or a word
/// is not below the modulus; bytes after the first 32 are not looked at.
#[verifier::external_body]
pub(crate) fn read_digest(bytes: &[u8]) -> (out: Result<Digest, DeserializationError>)
    ensures
        out is Ok <==> holds_digest(bytes@),
        out is Ok ==> out->Ok_0@ == digest_words(bytes@),
{
    let d = RpoDigest::read_from(&mut SliceReader::new(bytes))?;
    Ok(Digest { elements: [d[0].as_int(), d[1].as_int(), d[2].as_int(), d[3].as_int()] })
}

} // verus!
