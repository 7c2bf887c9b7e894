//! Author selection, digest markers and block sealing for a slot-based consensus engine.
//!
//! - `filter` draws a slot's eligible authors from the candidates with a seeded stream.
//! - `digests` builds and reads the identity and seal markers of a header's digest.
//! - `header` and `seal` hash headers, attach seals and check the seal of received blocks.
//! - `worker` decides each step of a slot's authoring attempt.
//! - `num` and `migration` hold the eligible count and its conversion from a legacy ratio.

pub mod digests;
pub mod filter;
pub mod header;
pub mod manual_seal;
pub mod migration;
pub mod num;
pub mod primitives;
pub mod seal;
pub mod worker;
