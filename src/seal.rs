//! Sealing a header, and the check that a received block carries a valid seal.

use vstd::prelude::*;
use crate::digests::{
    CompatibleDigestItem, DigestItem, first_identity, is_seal_marker, last_seal,
    read_identity_marker,
};
use crate::header::{Block, Header, hash_of, hash_with_digest, same_fields, signature_verifies, sr25519_verifies};
use crate::primitives::{Identity, Signature};

verus! {

/// Why a received block is rejected.
#[derive(Clone, Copy, Debug, PartialEq, Eq, Structural)]
pub enum VerificationFailure {
    /// The digest is empty, or its last entry is not a seal marker.
    MissingSeal,
    /// No identity marker precedes the seal.
    MissingIdentity,
    /// The seal is not the claimed author's signature of the unsealed header's hash.
    InvalidSignature,
}

/// A block whose seal has been taken off, with what the seal claims.
#[derive(Clone, Debug, PartialEq, Eq)]
pub struct Unsealed {
    /// The block, its header without the seal.
    pub block: Block,
    /// The author named by the header's identity marker.
    pub author: Identity,
    /// The signature carried by the seal.
    pub signature: Signature,
}

/// The author that the digest `d` of a sealed header names: the first identity marker
/// before the seal.
pub open spec fn sealed_author(d: Seq<DigestItem>) -> Option<Seq<u8>> {
    first_identity(d.drop_last())
}

/// Whether `u` is `b` with its seal taken off.
pub open spec fn unsealed_from(u: Unsealed, b: Block) -> bool {
    &&& b.header.digest@.len() > 0
    &&& same_fields(u.block.header, b.header)
    &&& u.block.header.digest@ == b.header.digest@.drop_last()
    &&& u.block.extrinsics == b.extrinsics
    &&& last_seal(b.header.digest@) == Some(u.signature@)
    &&& sealed_author(b.header.digest@) == Some(u.author@)
}

/// Appends the seal marker for `signature` as the last entry of `header`'s digest.
pub fn attach_seal(header: &mut Header, signature: Signature)
    ensures
        same_fields(*final(header), *old(header)),
        final(header).digest@.drop_last() == old(header).digest@,
        final(header).digest@.len() == old(header).digest@.len() + 1,
        is_seal_marker(final(header).digest@.last(), signature),
        last_seal(final(header).digest@) == Some(signature@),
{
    let marker = DigestItem::nimbus_seal(signature);
    header.digest.push(marker);
    assert(header.digest@.drop_last() =~= old(header).digest@);
}

/// A header that names its author and is then sealed with that author's valid signature of
/// its hash passes the seal check: the seal is found, the author is found, and the signature
/// is checked against the very hash that was signed.
pub proof fn lemma_sealed_header_verifies(
    unsealed: Header,
    sealed: Header,
    author: Identity,
    signature: Signature,
)
    requires
        first_identity(unsealed.digest@) == Some(author@),
        same_fields(sealed, unsealed),
        sealed.digest@.len() == unsealed.digest@.len() + 1,
        sealed.digest@.drop_last() == unsealed.digest@,
        is_seal_marker(sealed.digest@.last(), signature),
        sr25519_verifies(signature@, hash_of(unsealed), author@),
    ensures
        last_seal(sealed.digest@) == Some(signature@),
        sealed_author(sealed.digest@) == Some(author@),
        sr25519_verifies(
            last_seal(sealed.digest@)->0,
            hash_with_digest(sealed, sealed.digest@.drop_last()),
            sealed_author(sealed.digest@)->0,
        ),
{
}

/// Takes the seal off `block`: the last digest entry must be a seal marker, and an identity
/// marker must precede it.
pub fn unseal(block: Block) -> (r: Result<Unsealed, VerificationFailure>)
    ensures
        last_seal(block.header.digest@) is None <==> r == Err::<Unsealed, VerificationFailure>(
            VerificationFailure::MissingSeal,
        ),
        last_seal(block.header.digest@) is Some && sealed_author(block.header.digest@) is None
            <==> r == Err::<Unsealed, VerificationFailure>(VerificationFailure::MissingIdentity),
        r != Err::<Unsealed, VerificationFailure>(VerificationFailure::InvalidSignature),
        r matches Ok(u) ==> unsealed_from(u, block),
{
    let ghost original = block;
    let mut header = block.header;
    let extrinsics = block.extrinsics;
    let seal = match header.digest.pop() {
        Some(item) => item,
        None => {
            return Err(VerificationFailure::MissingSeal);
        },
    };
    assert(header.digest@ =~= original.header.digest@.drop_last());
    let signature = match seal.as_nimbus_seal() {
        Some(s) => s,
        None => {
            return Err(VerificationFailure::MissingSeal);
        },
    };
    let author = match read_identity_marker(&header.digest) {
        Some(a) => a,
        None => {
            return Err(VerificationFailure::MissingIdentity);
        },
    };
    Ok(Unsealed { block: Block { header, extrinsics }, author, signature })
}

/// The outcome of a seal check on `unsealed`, given whether its signature verifies against
/// the hash of its header.
pub fn accept_if_signed(unsealed: Unsealed, signature_valid: bool) -> (r: Result<
    Unsealed,
    VerificationFailure,
>)
    ensures
        signature_valid ==> r == Ok::<Unsealed, VerificationFailure>(unsealed),
        !signature_valid ==> r == Err::<Unsealed, VerificationFailure>(
            VerificationFailure::InvalidSignature,
        ),
{
    if signature_valid {
        Ok(unsealed)
    } else {
        Err(VerificationFailure::InvalidSignature)
    }
}

/// Checks the seal of a received block before it is executed. The seal must be the last
/// digest entry, an identity marker must precede it, and it must be that author's signature
/// of the hash of the header without the seal. On success the block comes back without its
/// seal, with the author and the signature.
pub fn verify(block: Block) -> (r: Result<Unsealed, VerificationFailure>)
    ensures
        last_seal(block.header.digest@) is None <==> r == Err::<Unsealed, VerificationFailure>(
            VerificationFailure::MissingSeal,
        ),
        last_seal(block.header.digest@) is Some && sealed_author(block.header.digest@) is None
            <==> r == Err::<Unsealed, VerificationFailure>(VerificationFailure::MissingIdentity),
        last_seal(block.header.digest@) is Some && sealed_author(block.header.digest@) is Some
            ==> (r == Err::<Unsealed, VerificationFailure>(VerificationFailure::InvalidSignature)
            <==> !sr25519_verifies(
            last_seal(block.header.digest@)->0,
            hash_with_digest(block.header, block.header.digest@.drop_last()),
            sealed_author(block.header.digest@)->0,
        )),
        r matches Ok(u) ==> unsealed_from(u, block),
{
    let unsealed = match unseal(block) {
        Ok(u) => u,
        Err(e) => {
            return Err(e);
        },
    };
    let hash = unsealed.block.header.hash();
    let valid = signature_verifies(&unsealed.signature, hash.as_slice(), &unsealed.author);
    accept_if_signed(unsealed, valid)
}

} // verus!
