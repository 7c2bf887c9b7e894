//! The digests that manual sealing (blocks authored on demand) puts into a header.

use vstd::prelude::*;
use crate::digests::{CompatibleDigestItem, DigestItem, first_identity, is_identity_marker, read_identity_marker};
use crate::header::Header;
use crate::primitives::{Identity, identity_bytes};

verus! {

/// Why manual sealing cannot author a block.
#[derive(Clone, Copy, Debug, PartialEq, Eq, Structural)]
pub enum ManualSealError {
    /// None of this node's keys is eligible.
    NoEligibleKey,
}

impl ManualSealError {
    /// A description of the error.
    pub fn message(&self) -> (r: &'static str)
        ensures
            r@ == "no nimbus keys available to manual seal"@,
    {
        match self {
            ManualSealError::NoEligibleKey => "no nimbus keys available to manual seal",
        }
    }
}

/// The digest that starts a manually sealed block: the identity marker of the node's first
/// eligible key. Fails when the node has no eligible key.
pub fn create_digest(eligible_key: Option<Identity>) -> (r: Result<Vec<DigestItem>, ManualSealError>)
    ensures
        eligible_key is None <==> r == Err::<Vec<DigestItem>, ManualSealError>(
            ManualSealError::NoEligibleKey,
        ),
        eligible_key matches Some(k) ==> r matches Ok(d) && d@.len() == 1 && is_identity_marker(d@[0], k),
{
    match eligible_key {
        Some(key) => {
            let mut logs: Vec<DigestItem> = Vec::new();
            logs.push(DigestItem::nimbus_pre_digest(key));
            Ok(logs)
        },
        None => Err(ManualSealError::NoEligibleKey),
    }
}

/// The author that a header built by manual sealing names, which is the key to seal it with.
pub fn claimed_author(header: &Header) -> (r: Option<Identity>)
    ensures
        identity_bytes(r) == first_identity(header.digest@),
{
    read_identity_marker(&header.digest)
}

} // verus!
