//! Block headers as this engine sees them, their hash, and signature checks.

use vstd::prelude::*;
use sp_core::Pair as _;
use sp_runtime::generic::{DigestItem as SpItem, Header as SpHeader};
use sp_runtime::traits::BlakeTwo256;
use crate::digests::DigestItem;
use crate::primitives::{Identity, Signature};

verus! {

/// A block header: the fields that are hashed, and the digest.
#[derive(Clone, Debug, PartialEq, Eq)]
pub struct Header {
    pub parent_hash: [u8; 32],
    pub number: u32,
    pub state_root: [u8; 32],
    pub extrinsics_root: [u8; 32],
    pub digest: Vec<DigestItem>,
}

/// A header with its body, the encoded extrinsics.
#[derive(Clone, Debug, PartialEq, Eq)]
pub struct Block {
    pub header: Header,
    pub extrinsics: Vec<Vec<u8>>,
}

/// The 32-byte hash of the header with these fields.
pub uninterp spec fn header_hash_of(
    parent_hash: Seq<u8>,
    number: u32,
    state_root: Seq<u8>,
    extrinsics_root: Seq<u8>,
    digest: Seq<DigestItem>,
) -> Seq<u8>;

/// Whether `signature` is a valid signature of `message` under the key `public`.
pub uninterp spec fn sr25519_verifies(signature: Seq<u8>, message: Seq<u8>, public: Seq<u8>) -> bool;

/// The hash of `h` with its digest replaced by `digest`.
pub open spec fn hash_with_digest(h: Header, digest: Seq<DigestItem>) -> Seq<u8> {
    header_hash_of(h.parent_hash@, h.number, h.state_root@, h.extrinsics_root@, digest)
}

/// The hash of `h`.
pub open spec fn hash_of(h: Header) -> Seq<u8> {
    hash_with_digest(h, h.digest@)
}

/// Whether `a` and `b` agree on every field but the digest.
pub open spec fn same_fields(a: Header, b: Header) -> bool {
    &&& a.parent_hash == b.parent_hash
    &&& a.number == b.number
    &&& a.state_root == b.state_root
    &&& a.extrinsics_root == b.extrinsics_root
}

/// Relies on `sp_runtime::generic::Header::<u32, BlakeTwo256>::hash`: the BLAKE2b-256 hash of
/// the header's SCALE encoding, 32 bytes decided by the header's fields alone.
#[verifier::external_body]
pub(crate) fn header_hash(h: &Header) -> (r: [u8; 32])
    ensures
        r@ == header_hash_of(h.parent_hash@, h.number, h.state_root@, h.extrinsics_root@, h.digest@),
{
    let logs = h.digest.iter().map(|d| match d.clone() {
        DigestItem::PreRuntime(e, v) => SpItem::PreRuntime(e, v),
        DigestItem::Consensus(e, v) => SpItem::Consensus(e, v),
        DigestItem::Seal(e, v) => SpItem::Seal(e, v),
        DigestItem::Other(v) => SpItem::Other(v),
        DigestItem::RuntimeEnvironmentUpdated => SpItem::RuntimeEnvironmentUpdated,
    }).collect();
    let (p, s, x) = (h.parent_hash.into(), h.state_root.into(), h.extrinsics_root.into());
    let sp = SpHeader::<u32, BlakeTwo256> { parent_hash: p, number: h.number, state_root: s, extrinsics_root: x, digest: sp_runtime::Digest { logs } };
    sp.hash().0
}

/// Relies on `sp_core::sr25519::Pair::verify`: whether `signature` is a valid sr25519 signature
/// of `message` by `public`, decided by the three byte strings alone.
#[verifier::external_body]
pub(crate) fn signature_verifies(signature: &Signature, message: &[u8], public: &Identity) -> (r: bool)
    ensures
        r == sr25519_verifies(signature@, message@, public@),
{
    let sig = sp_core::sr25519::Signature::from_raw(signature.bytes);
    sp_core::sr25519::Pair::verify(&sig, message, &sp_core::sr25519::Public::from_raw(public.bytes))
}

impl Header {
    /// The hash of this header, as it stands: the hash that a seal signs when taken before
    /// the seal is attached.
    pub fn hash(&self) -> (r: [u8; 32])
        ensures
            r@ == hash_of(*self),
    {
        header_hash(self)
    }
}

} // verus!
