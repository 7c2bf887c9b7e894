//! The entries of a block header's digest, and the identity and seal markers kept in it.

use vstd::prelude::*;
use crate::primitives::{Identity, Signature, identity_bytes, signature_bytes};

verus! {

/// A four-byte tag naming the consensus engine an entry belongs to.
pub type EngineId = [u8; 4];

/// One entry of a header's digest.
#[derive(Clone, Debug, PartialEq, Eq)]
pub enum DigestItem {
    /// A message from the consensus engine to the runtime, placed before execution.
    PreRuntime(EngineId, Vec<u8>),
    /// A message from the runtime to the consensus engine.
    Consensus(EngineId, Vec<u8>),
    /// A seal over the rest of the header.
    Seal(EngineId, Vec<u8>),
    /// Anything else.
    Other(Vec<u8>),
    /// The runtime's execution environment changed.
    RuntimeEnvironmentUpdated,
}

/// Whether `e` is this engine's tag, the bytes of `"nmbs"`.
pub open spec fn is_nimbus_engine(e: EngineId) -> bool {
    e@ == seq![110u8, 109u8, 98u8, 115u8]
}

/// This engine's tag, the bytes of `"nmbs"`.
pub fn nimbus_engine_id() -> (r: EngineId)
    ensures
        is_nimbus_engine(r),
{
    let r: EngineId = [110u8, 109u8, 98u8, 115u8];
    assert(r@ =~= seq![110u8, 109u8, 98u8, 115u8]);
    r
}

/// Whether `e` is this engine's tag.
pub fn engine_matches(e: &EngineId) -> (r: bool)
    ensures
        r == is_nimbus_engine(*e),
{
    let r = e[0] == 110u8 && e[1] == 109u8 && e[2] == 98u8 && e[3] == 115u8;
    assert(r ==> e@ =~= seq![110u8, 109u8, 98u8, 115u8]);
    r
}

/// The author carried by `item`, if it is an identity marker of this engine: a pre-runtime
/// entry with this engine's tag whose payload is exactly one identity.
pub open spec fn identity_marker_payload(item: DigestItem) -> Option<Seq<u8>> {
    match item {
        DigestItem::PreRuntime(e, d) => if is_nimbus_engine(e) && d@.len() == 32 {
            Some(d@)
        } else {
            None
        },
        _ => None,
    }
}

/// The signature carried by `item`, if it is a seal marker of this engine: a seal entry with
/// this engine's tag whose payload is exactly one signature.
pub open spec fn seal_marker_payload(item: DigestItem) -> Option<Seq<u8>> {
    match item {
        DigestItem::Seal(e, d) => if is_nimbus_engine(e) && d@.len() == 64 {
            Some(d@)
        } else {
            None
        },
        _ => None,
    }
}

/// Whether `item` is the identity marker for `id`.
pub open spec fn is_identity_marker(item: DigestItem, id: Identity) -> bool {
    identity_marker_payload(item) == Some(id@)
}

/// Whether `item` is the seal marker for `sig`.
pub open spec fn is_seal_marker(item: DigestItem, sig: Signature) -> bool {
    seal_marker_payload(item) == Some(sig@)
}

/// The author named by the first identity marker in `logs`, if any.
pub open spec fn first_identity(logs: Seq<DigestItem>) -> Option<Seq<u8>>
    decreases logs.len(),
{
    if logs.len() == 0 {
        None
    } else if identity_marker_payload(logs[0]) is Some {
        identity_marker_payload(logs[0])
    } else {
        first_identity(logs.drop_first())
    }
}

/// The signature in the last entry of `logs`, if that entry is a seal marker.
pub open spec fn last_seal(logs: Seq<DigestItem>) -> Option<Seq<u8>> {
    if logs.len() == 0 {
        None
    } else {
        seal_marker_payload(logs.last())
    }
}

/// Building and reading this engine's entries.
pub trait CompatibleDigestItem: Sized {
    /// The pre-runtime entry that names `author`.
    fn nimbus_pre_digest(author: Identity) -> Self;

    /// The author, if this is this engine's pre-runtime entry.
    fn as_nimbus_pre_digest(&self) -> Option<Identity>;

    /// The seal entry that holds `signature`.
    fn nimbus_seal(signature: Signature) -> Self;

    /// The signature, if this is this engine's seal entry.
    fn as_nimbus_seal(&self) -> Option<Signature>;

    /// The consensus entry that names `author`; superseded by the pre-runtime entry.
    fn nimbus_consensus_digest(author: Identity) -> Self;

    /// Superseded: reads the author from this engine's pre-runtime entry.
    fn as_nimbus_consensus_digest(&self) -> Option<Identity>;
}

impl CompatibleDigestItem for DigestItem {
    fn nimbus_pre_digest(author: Identity) -> (r: DigestItem)
        ensures
            is_identity_marker(r, author),
    {
        DigestItem::PreRuntime(nimbus_engine_id(), author.to_vec())
    }

    fn as_nimbus_pre_digest(&self) -> (r: Option<Identity>)
        ensures
            identity_bytes(r) == identity_marker_payload(*self),
    {
        match self {
            DigestItem::PreRuntime(e, d) => if engine_matches(e) {
                Identity::from_slice(d.as_slice())
            } else {
                None
            },
            _ => None,
        }
    }

    fn nimbus_seal(signature: Signature) -> (r: DigestItem)
        ensures
            is_seal_marker(r, signature),
    {
        DigestItem::Seal(nimbus_engine_id(), signature.to_vec())
    }

    fn as_nimbus_seal(&self) -> (r: Option<Signature>)
        ensures
            signature_bytes(r) == seal_marker_payload(*self),
    {
        match self {
            DigestItem::Seal(e, d) => if engine_matches(e) {
                Signature::from_slice(d.as_slice())
            } else {
                None
            },
            _ => None,
        }
    }

    fn nimbus_consensus_digest(author: Identity) -> (r: DigestItem)
        ensures
            r matches DigestItem::Consensus(e, d) && is_nimbus_engine(e) && d@ == author@,
    {
        DigestItem::Consensus(nimbus_engine_id(), author.to_vec())
    }

    fn as_nimbus_consensus_digest(&self) -> (r: Option<Identity>)
        ensures
            identity_bytes(r) == identity_marker_payload(*self),
    {
        self.as_nimbus_pre_digest()
    }
}

/// The identity marker for `identity`.
pub fn make_identity_marker(identity: Identity) -> (r: DigestItem)
    ensures
        is_identity_marker(r, identity),
{
    DigestItem::nimbus_pre_digest(identity)
}

/// The seal marker for `signature`.
pub fn make_seal_marker(signature: Signature) -> (r: DigestItem)
    ensures
        is_seal_marker(r, signature),
{
    DigestItem::nimbus_seal(signature)
}

/// The author named by the first identity marker of `logs`; `None` when there is none.
pub fn read_identity_marker(logs: &Vec<DigestItem>) -> (r: Option<Identity>)
    ensures
        identity_bytes(r) == first_identity(logs@),
{
    let mut i: usize = 0;
    assert(logs@.skip(0) =~= logs@);
    while i < logs.len()
        invariant
            0 <= i <= logs@.len(),
            first_identity(logs@) == first_identity(logs@.skip(i as int)),
        decreases logs@.len() - i,
    {
        let found = logs[i].as_nimbus_pre_digest();
        assert(logs@.skip(i as int)[0] == logs@[i as int]);
        assert(logs@.skip(i as int).drop_first() =~= logs@.skip(i as int + 1));
        if found.is_some() {
            return found;
        }
        i += 1;
    }
    assert(logs@.skip(i as int).len() == 0);
    None
}

/// The signature of the seal marker that ends `logs`; `None` when `logs` is empty or its last
/// entry is no seal marker. Entries before the last are not looked at.
pub fn read_seal_marker(logs: &Vec<DigestItem>) -> (r: Option<Signature>)
    ensures
        signature_bytes(r) == last_seal(logs@),
{
    if logs.len() == 0 {
        None
    } else {
        logs[logs.len() - 1].as_nimbus_seal()
    }
}

/// Appending an identity marker to a digest that holds none makes that marker's author
/// the one that is read back; a digest that already names an author keeps naming it.
pub proof fn lemma_identity_marker_round_trip(logs: Seq<DigestItem>, marker: DigestItem, id: Identity)
    requires
        is_identity_marker(marker, id),
    ensures
        first_identity(logs) is None ==> first_identity(logs.push(marker)) == Some(id@),
        first_identity(logs) is Some ==> first_identity(logs.push(marker)) == first_identity(logs),
    decreases logs.len(),
{
    if logs.len() == 0 {
        assert(logs.push(marker).drop_first() =~= Seq::<DigestItem>::empty());
    } else {
        assert(logs.push(marker)[0] == logs[0]);
        assert(logs.push(marker).drop_first() =~= logs.drop_first().push(marker));
        lemma_identity_marker_round_trip(logs.drop_first(), marker, id);
    }
}

/// A seal marker appended last is read back; once any entry follows it, what is read is
/// that later entry's seal, or nothing, and no longer the appended one.
pub proof fn lemma_seal_marker_round_trip(
    logs: Seq<DigestItem>,
    marker: DigestItem,
    sig: Signature,
    later: DigestItem,
)
    requires
        is_seal_marker(marker, sig),
    ensures
        last_seal(logs.push(marker)) == Some(sig@),
        last_seal(logs.push(marker).push(later)) == seal_marker_payload(later),
{
}

} // verus!
