//! The decisions of one slot's authoring attempt: claim, propose, seal, import, publish.
//!
//! The worker is a state machine. The caller performs each action it asks for (building a
//! body, signing, importing, publishing) and hands the outcome back as the next event. One
//! slot's attempt runs to its end before the next slot starts.

use vstd::prelude::*;
use crate::digests::{CompatibleDigestItem, DigestItem, is_identity_marker, last_seal};
use crate::filter::{eligible_set, first_eligible_key, first_held, select};
use crate::header::{Block, hash_of, same_fields};
use crate::num::NonZeroU32;
use crate::primitives::{Identity, Signature, identities_from_keys, identities_in};
use crate::seal::attach_seal;

verus! {

/// How long the proposer may take to build a block, in milliseconds.
pub const PROPOSING_DEADLINE_MS: u64 = 500;

/// What the worker knows at the start of a slot.
#[derive(Clone, Debug, PartialEq, Eq)]
pub struct SlotStart {
    /// Everyone who may be selected in this slot.
    pub candidates: Vec<Identity>,
    /// The slot's randomness.
    pub seed: u64,
    /// How many candidates are eligible.
    pub eligible_count: NonZeroU32,
    /// The public keys this node holds signing keys for.
    pub local_keys: Vec<Vec<u8>>,
}

/// Where the slot's attempt stands.
#[derive(Clone, Debug, PartialEq, Eq)]
pub enum SlotState {
    /// No attempt is running.
    Idle,
    /// The node claimed the slot with `author` and waits for a block.
    Proposing { author: Identity },
    /// The block is built and waits for `author`'s signature of its header hash.
    Sealing { author: Identity, block: Block },
    /// The sealed block waits to be imported.
    Importing { block: Block },
    /// The sealed block was imported; it is the one to publish.
    Done { block: Block },
}

/// What the caller reports back.
#[derive(Clone, Debug, PartialEq, Eq)]
pub enum SlotEvent {
    /// A new slot began.
    SlotStarted(SlotStart),
    /// The proposer's block, or `None` when proposing failed or ran out of time.
    Proposed(Option<Block>),
    /// The signature of the requested hash, or `None` when signing failed.
    Signed(Option<Signature>),
    /// Whether the sealed block was imported.
    Imported(bool),
}

/// Why a slot's attempt was given up.
#[derive(Clone, Copy, Debug, PartialEq, Eq)]
pub enum AbandonReason {
    /// No block was proposed in time.
    ProposalFailed,
    /// The key could not sign.
    SigningFailed,
    /// Importing the block built on `parent_hash` failed.
    ImportFailed { parent_hash: [u8; 32] },
}

/// What the caller is asked to do next.
#[derive(Clone, Debug, PartialEq, Eq)]
pub enum SlotAction {
    /// Nothing: no slot is claimed, or the event does not belong to the current stage.
    Wait,
    /// Build a block whose digest starts with `pre_digest`, within `deadline_ms`.
    Propose { pre_digest: Vec<DigestItem>, deadline_ms: u64 },
    /// Sign `message` with the key of `author`.
    Sign { author: Identity, message: [u8; 32] },
    /// Import the block held by the `Importing` state.
    Import,
    /// Publish the block held by the `Done` state.
    Publish,
    /// Give up this slot.
    Abandon(AbandonReason),
}

/// The identity this node claims the slot with, if any: the first identity of the slot's
/// eligible set for which it holds a key.
pub open spec fn slot_claim(start: SlotStart) -> Option<Identity> {
    first_held(
        eligible_set(start.candidates@, start.seed, start.eligible_count@ as nat),
        identities_in(start.local_keys@),
    )
}

/// Whether no attempt is in flight in `s`.
pub open spec fn is_at_rest(s: SlotState) -> bool {
    s is Idle || s is Done
}

/// What a slot start leads to: the claim's proposal, or a skip.
pub open spec fn starts_slot(start: SlotStart, r: (SlotState, SlotAction)) -> bool {
    match slot_claim(start) {
        Some(author) => r.0 == (SlotState::Proposing { author }) && match r.1 {
            SlotAction::Propose { pre_digest, deadline_ms } => {
                &&& deadline_ms == PROPOSING_DEADLINE_MS
                &&& pre_digest@.len() == 1
                &&& is_identity_marker(pre_digest@[0], author)
            },
            _ => false,
        },
        None => r.0 == SlotState::Idle && r.1 == SlotAction::Wait,
    }
}

/// What a proposer's outcome leads to: a request for `author`'s signature of the header
/// hash, or giving up.
pub open spec fn proposes(author: Identity, p: Option<Block>, r: (SlotState, SlotAction)) -> bool {
    match p {
        Some(b) => r.0 == (SlotState::Sealing { author, block: b }) && match r.1 {
            SlotAction::Sign { author: a, message } => a == author && message@ == hash_of(b.header),
            _ => false,
        },
        None => r.0 == SlotState::Idle && r.1 == SlotAction::Abandon(AbandonReason::ProposalFailed),
    }
}

/// What a signer's outcome leads to: the block sealed with the signature and sent to
/// import, or giving up.
pub open spec fn seals(block: Block, s: Option<Signature>, r: (SlotState, SlotAction)) -> bool {
    match s {
        Some(sig) => r.1 == SlotAction::Import && match r.0 {
            SlotState::Importing { block: sealed } => {
                &&& same_fields(sealed.header, block.header)
                &&& sealed.header.digest@.drop_last() == block.header.digest@
                &&& last_seal(sealed.header.digest@) == Some(sig@)
                &&& sealed.extrinsics == block.extrinsics
            },
            _ => false,
        },
        None => r.0 == SlotState::Idle && r.1 == SlotAction::Abandon(AbandonReason::SigningFailed),
    }
}

/// What an import's outcome leads to: publishing the block, or giving up.
pub open spec fn imports(block: Block, ok: bool, r: (SlotState, SlotAction)) -> bool {
    if ok {
        r.0 == (SlotState::Done { block }) && r.1 == SlotAction::Publish
    } else {
        r.0 == SlotState::Idle && r.1 == SlotAction::Abandon(
            AbandonReason::ImportFailed { parent_hash: block.header.parent_hash },
        )
    }
}

/// Whether `event` is the one that the stage `state` waits for.
pub open spec fn is_expected(state: SlotState, event: SlotEvent) -> bool {
    ||| is_at_rest(state) && event is SlotStarted
    ||| state is Proposing && event is Proposed
    ||| state is Sealing && event is Signed
    ||| state is Importing && event is Imported
}

/// A node holding a single key claims the slot with it exactly when that key is in the
/// slot's eligible set, and skips the slot otherwise.
pub proof fn lemma_single_key_claims_iff_eligible(start: SlotStart, key: Identity)
    requires
        identities_in(start.local_keys@) == seq![key],
    ensures
        eligible_set(start.candidates@, start.seed, start.eligible_count@ as nat).contains(key)
            ==> slot_claim(start) == Some(key),
        !eligible_set(start.candidates@, start.seed, start.eligible_count@ as nat).contains(key)
            ==> slot_claim(start) is None,
{
    let e = eligible_set(start.candidates@, start.seed, start.eligible_count@ as nat);
    let held = identities_in(start.local_keys@);
    crate::filter::lemma_first_held(e, held);
    if let Some(x) = first_held(e, held) {
        assert(held.contains(x));
        assert(held[0] == key);
    }
    if e.contains(key) {
        let k = choose|k: int| 0 <= k < e.len() && e[k] == key;
        assert(held[0] == key);
        assert(held.contains(e[k]));
    }
}

/// The identity this node claims the slot described by `start` with: the slot's eligible set
/// is computed and the first eligible identity held locally is taken. `None` means the node
/// skips the slot.
pub fn claim_slot(start: &SlotStart) -> (r: Option<Identity>)
    ensures
        r == slot_claim(*start),
{
    let eligible = select(&start.candidates, start.seed, start.eligible_count);
    let held = identities_from_keys(&start.local_keys);
    first_eligible_key(&eligible, &held)
}

/// The next state and action after `event` in `state`.
pub fn step(state: SlotState, event: SlotEvent) -> (r: (SlotState, SlotAction))
    ensures
        event matches SlotEvent::SlotStarted(start) ==> (is_at_rest(state) ==> starts_slot(start, r)),
        state matches SlotState::Proposing { author } ==> (event matches SlotEvent::Proposed(p)
            ==> proposes(author, p, r)),
        state matches SlotState::Sealing { author, block } ==> (event matches SlotEvent::Signed(s)
            ==> seals(block, s, r)),
        state matches SlotState::Importing { block } ==> (event matches SlotEvent::Imported(ok)
            ==> imports(block, ok, r)),
        !is_expected(state, event) ==> r.0 == state && r.1 == SlotAction::Wait,
{
    match (state, event) {
        (SlotState::Idle, SlotEvent::SlotStarted(start)) | (SlotState::Done { .. }, SlotEvent::SlotStarted(start)) => {
            match claim_slot(&start) {
                Some(author) => {
                    let mut pre_digest: Vec<DigestItem> = Vec::new();
                    pre_digest.push(DigestItem::nimbus_pre_digest(author));
                    (SlotState::Proposing { author }, SlotAction::Propose { pre_digest, deadline_ms: PROPOSING_DEADLINE_MS })
                },
                None => (SlotState::Idle, SlotAction::Wait),
            }
        },
        (SlotState::Proposing { author }, SlotEvent::Proposed(p)) => match p {
            Some(block) => {
                let message = block.header.hash();
                (SlotState::Sealing { author, block }, SlotAction::Sign { author, message })
            },
            None => (SlotState::Idle, SlotAction::Abandon(AbandonReason::ProposalFailed)),
        },
        (SlotState::Sealing { author, block }, SlotEvent::Signed(s)) => match s {
            Some(sig) => {
                let mut header = block.header;
                attach_seal(&mut header, sig);
                (SlotState::Importing { block: Block { header, extrinsics: block.extrinsics } }, SlotAction::Import)
            },
            None => (SlotState::Idle, SlotAction::Abandon(AbandonReason::SigningFailed)),
        },
        (SlotState::Importing { block }, SlotEvent::Imported(ok)) => {
            if ok {
                (SlotState::Done { block }, SlotAction::Publish)
            } else {
                let parent_hash = block.header.parent_hash;
                (SlotState::Idle, SlotAction::Abandon(AbandonReason::ImportFailed { parent_hash }))
            }
        },
        (state, _) => (state, SlotAction::Wait),
    }
}

} // verus!
