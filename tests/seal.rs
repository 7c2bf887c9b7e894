use nimbus::digests::{make_identity_marker, make_seal_marker, DigestItem};
use nimbus::header::{Block, Header};
use nimbus::manual_seal::{claimed_author, create_digest, ManualSealError};
use nimbus::primitives::{Identity, Signature};
use nimbus::seal::{attach_seal, unseal, verify, VerificationFailure};
use sp_core::{sr25519, Pair};
use sp_runtime::traits::{BlakeTwo256, Header as _};

fn pair(n: u8) -> sr25519::Pair {
    sr25519::Pair::from_seed(&[n; 32])
}

fn identity_of(p: &sr25519::Pair) -> Identity {
    Identity { bytes: p.public().0 }
}

fn unsealed_header(author: Identity) -> Header {
    Header {
        parent_hash: [1; 32],
        number: 7,
        state_root: [2; 32],
        extrinsics_root: [3; 32],
        digest: vec![DigestItem::Other(vec![4, 4]), make_identity_marker(author)],
    }
}

fn sealed_block(p: &sr25519::Pair) -> Block {
    let mut header = unsealed_header(identity_of(p));
    let hash = header.hash();
    let signature = Signature { bytes: p.sign(&hash).0 };
    attach_seal(&mut header, signature);
    Block { header, extrinsics: vec![vec![9, 9, 9]] }
}

#[test]
fn header_hash_matches_the_runtime_header() {
    let header = unsealed_header(Identity { bytes: [5; 32] });
    let runtime = sp_runtime::generic::Header::<u32, BlakeTwo256>::new(
        7,
        [3; 32].into(),
        [2; 32].into(),
        [1; 32].into(),
        sp_runtime::Digest {
            logs: vec![
                sp_runtime::DigestItem::Other(vec![4, 4]),
                sp_runtime::DigestItem::PreRuntime(*b"nmbs", vec![5; 32]),
            ],
        },
    );
    assert_eq!(header.hash(), runtime.hash().0);
}

#[test]
fn header_hash_changes_with_the_header() {
    let header = unsealed_header(Identity { bytes: [5; 32] });
    let mut other = header.clone();
    other.number = 8;
    assert_ne!(header.hash(), other.hash());
    let mut other = header.clone();
    other.digest.pop();
    assert_ne!(header.hash(), other.hash());
}

#[test]
fn signed_header_verifies() {
    let p = pair(1);
    let block = sealed_block(&p);
    let unsealed = verify(block.clone()).expect("a correctly sealed block verifies");
    assert_eq!(unsealed.author, identity_of(&p));
    assert_eq!(unsealed.block.header.digest, unsealed_header(identity_of(&p)).digest);
    assert_eq!(unsealed.block.extrinsics, block.extrinsics);
    assert_eq!(Some(&make_seal_marker(unsealed.signature)), block.header.digest.last());
}

#[test]
fn mutated_header_fails_with_invalid_signature() {
    let p = pair(1);
    let block = sealed_block(&p);

    let mut changed = block.clone();
    changed.header.number += 1;
    assert_eq!(verify(changed).err(), Some(VerificationFailure::InvalidSignature));

    for i in 0..32 {
        let mut changed = block.clone();
        changed.header.state_root[i] ^= 1;
        assert_eq!(verify(changed).err(), Some(VerificationFailure::InvalidSignature));
    }

    let mut changed = block.clone();
    changed.header.parent_hash[31] ^= 0x80;
    assert_eq!(verify(changed).err(), Some(VerificationFailure::InvalidSignature));

    let mut changed = block.clone();
    changed.header.digest[0] = DigestItem::Other(vec![4, 5]);
    assert_eq!(verify(changed).err(), Some(VerificationFailure::InvalidSignature));
}

#[test]
fn signature_by_another_key_is_invalid() {
    let p = pair(1);
    let q = pair(2);
    let mut header = unsealed_header(identity_of(&p));
    let hash = header.hash();
    attach_seal(&mut header, Signature { bytes: q.sign(&hash).0 });
    let block = Block { header, extrinsics: vec![] };
    assert_eq!(verify(block).err(), Some(VerificationFailure::InvalidSignature));
}

#[test]
fn missing_seal_is_rejected() {
    let p = pair(1);
    let empty = Block { header: Header { digest: vec![], ..unsealed_header(identity_of(&p)) }, extrinsics: vec![] };
    assert_eq!(verify(empty).err(), Some(VerificationFailure::MissingSeal));

    let mut block = sealed_block(&p);
    block.header.digest.push(DigestItem::Other(vec![]));
    assert_eq!(verify(block).err(), Some(VerificationFailure::MissingSeal));

    let block = Block { header: unsealed_header(identity_of(&p)), extrinsics: vec![] };
    assert_eq!(unseal(block).err(), Some(VerificationFailure::MissingSeal));
}

#[test]
fn missing_identity_is_rejected() {
    let p = pair(1);
    let mut header = unsealed_header(identity_of(&p));
    header.digest.remove(1);
    let hash = header.hash();
    attach_seal(&mut header, Signature { bytes: p.sign(&hash).0 });
    let block = Block { header, extrinsics: vec![] };
    assert_eq!(verify(block).err(), Some(VerificationFailure::MissingIdentity));
}

#[test]
fn manual_seal_digest_names_the_key() {
    let id = Identity { bytes: [8; 32] };
    assert_eq!(create_digest(Some(id)), Ok(vec![make_identity_marker(id)]));
    assert_eq!(create_digest(None), Err(ManualSealError::NoEligibleKey));
    assert_eq!(
        ManualSealError::NoEligibleKey.message(),
        "no nimbus keys available to manual seal"
    );
    let header = Header { digest: create_digest(Some(id)).unwrap(), ..unsealed_header(id) };
    assert_eq!(claimed_author(&header), Some(id));
}
