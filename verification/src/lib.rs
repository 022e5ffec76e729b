//! Federation engine of a decentralized social network: it verifies, deduplicates and applies
//! inbound activities, and builds the envelopes of outbound ones.
//!
//! Every function is verified against the contract written on it; the few calls into other
//! crates sit in small functions whose contracts are stated, not proved, and say so.

pub mod activity_id;
pub mod deletion;
pub mod dispatch;
pub mod error;
pub mod followers;
pub mod following;
pub mod iri;
pub mod ledger;
pub mod lookup;
pub mod markdown;
pub mod objects;
pub mod policy;
pub mod protocol;
pub mod settings;
pub mod spoiler;
pub mod store;
pub mod text;
